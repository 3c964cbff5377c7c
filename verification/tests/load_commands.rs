use lief::commands::{
    Command, CommandKind, CommandRecord, Commands, CMD_DYSYMTAB, CMD_MAIN, CMD_SEGMENT,
    CMD_SEGMENT_64, CMD_SYMTAB, CMD_UUID,
};
use lief::Binary;

#[test]
fn known_discriminators_classify_to_registered_variant() {
    let table = [
        (CMD_SEGMENT, CommandKind::Segment),
        (CMD_SEGMENT_64, CommandKind::Segment),
        (CMD_SYMTAB, CommandKind::SymbolTable),
        (CMD_DYSYMTAB, CommandKind::DynamicSymbolTable),
        (CMD_UUID, CommandKind::Uuid),
        (CMD_MAIN, CommandKind::Main),
    ];
    for (discriminator, kind) in table {
        let cmd = Commands::classify(CommandRecord::new(discriminator, 16, 0));
        assert_eq!(cmd.kind(), kind);
        assert_eq!(cmd.get_base().discriminator(), discriminator);
    }
}

#[test]
fn unknown_discriminators_classify_to_unknown() {
    for discriminator in [0u32, 0x3, 0x9999, 0x7FFF_FFFF, 0xFFFF_FFFF] {
        let cmd = Commands::classify(CommandRecord::new(discriminator, 8, 0));
        assert_eq!(cmd.kind(), CommandKind::Unknown);
        match cmd {
            Commands::Unknown(unknown) => {
                assert_eq!(unknown.original_command(), discriminator as u64);
            }
            _ => panic!("expected the Unknown variant"),
        }
    }
}

#[test]
fn unknown_preserves_raw_value_without_truncation() {
    let cmd = Commands::classify(CommandRecord::new(0xFFFF_FFFF, 8, 24));
    match cmd {
        Commands::Unknown(unknown) => {
            assert_eq!(unknown.original_command(), 0xFFFF_FFFFu64);
        }
        _ => panic!("expected the Unknown variant"),
    }
}

#[test]
fn base_matches_native_record_on_every_variant() {
    let records = [
        CommandRecord::new(CMD_SEGMENT, 56, 0x20),
        CommandRecord::new(CMD_SEGMENT_64, 72, 0x58),
        CommandRecord::new(CMD_SYMTAB, 24, 0xA0),
        CommandRecord::new(CMD_DYSYMTAB, 80, 0xB8),
        CommandRecord::new(CMD_UUID, 24, 0x108),
        CommandRecord::new(CMD_MAIN, 24, 0x120),
        CommandRecord::new(0x9999, 8, 0x138),
    ];
    for record in records {
        let cmd = Commands::classify(record);
        let base = cmd.get_base();
        assert_eq!(base.cmd, record.cmd);
        assert_eq!(base.size, record.size);
        assert_eq!(base.offset, record.offset);
    }
}

#[test]
fn enumeration_is_idempotent() {
    let bin = Binary::from_records(vec![
        CommandRecord::new(CMD_SEGMENT_64, 72, 0x20),
        CommandRecord::new(0x4242, 8, 0x68),
        CommandRecord::new(CMD_SYMTAB, 24, 0x70),
        CommandRecord::new(CMD_UUID, 24, 0x88),
    ]);
    let first: Vec<u32> = bin
        .commands()
        .iter()
        .map(|cmd| cmd.get_base().discriminator())
        .collect();
    let second: Vec<u32> = bin
        .commands()
        .iter()
        .map(|cmd| cmd.get_base().discriminator())
        .collect();
    assert_eq!(first, second);
    assert_eq!(first, vec![CMD_SEGMENT_64, 0x4242, CMD_SYMTAB, CMD_UUID]);
}

#[test]
fn three_command_scenario_in_table_order() {
    let bin = Binary::from_records(vec![
        CommandRecord::new(0x19, 72, 0x20),
        CommandRecord::new(0x9999, 8, 0x68),
        CommandRecord::new(0x2, 24, 0x70),
    ]);
    assert_eq!(bin.command_count(), 3);
    let cmds = bin.commands();
    assert_eq!(cmds.len(), 3);

    assert!(matches!(cmds[0], Commands::Segment(_)));
    match &cmds[1] {
        Commands::Unknown(unknown) => assert_eq!(unknown.original_command(), 0x9999),
        _ => panic!("expected the Unknown variant"),
    }
    assert!(matches!(cmds[2], Commands::SymbolTable(_)));

    assert_eq!(cmds[0].get_base().discriminator(), 0x19);
    assert_eq!(cmds[1].get_base().discriminator(), 0x9999);
    assert_eq!(cmds[2].get_base().discriminator(), 0x2);
}

#[test]
fn command_at_classifies_on_demand() {
    let bin = Binary::from_records(vec![
        CommandRecord::new(CMD_MAIN, 24, 0x20),
        CommandRecord::new(CMD_DYSYMTAB, 80, 0x38),
    ]);
    assert_eq!(bin.command_at(0).kind(), CommandKind::Main);
    assert_eq!(bin.command_at(1).kind(), CommandKind::DynamicSymbolTable);
}

#[test]
fn empty_table_enumerates_to_nothing() {
    let bin = Binary::from_records(Vec::new());
    assert_eq!(bin.command_count(), 0);
    assert!(bin.commands().is_empty());
}

#[test]
fn variant_names_follow_the_variant() {
    let named = [
        (CMD_SEGMENT_64, "Segment"),
        (CMD_SYMTAB, "SymbolTable"),
        (CMD_DYSYMTAB, "DynamicSymbolTable"),
        (CMD_UUID, "Uuid"),
        (CMD_MAIN, "Main"),
        (0x9999, "UnknownCommand"),
    ];
    for (discriminator, name) in named {
        let cmd = Commands::classify(CommandRecord::new(discriminator, 16, 0));
        assert_eq!(cmd.variant_name(), name);
    }
}

#[test]
fn record_fields_round_through_the_constructor() {
    let record = CommandRecord::new(0x1B, 24, 0x88);
    assert_eq!(record.cmd, 0x1B);
    assert_eq!(record.size, 24);
    assert_eq!(record.offset, 0x88);
    assert_eq!(record.discriminator(), 0x1B);
}
