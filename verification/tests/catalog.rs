use pg_peek::types::{
    AclItem, AclMode, CatalogError, Oid, PgType, PgTypeRecord, Regproc, TypeAlign, TypeCategory,
    TypeStorage, TypeType, ACL_READ, ACL_WRITE,
};

fn bool_record() -> PgTypeRecord {
    PgTypeRecord {
        oid: 16,
        typname: String::from("bool"),
        typnamespace: 11,
        typowner: 10,
        typlen: 1,
        typbyval: true,
        typtype: String::from("b"),
        typcategory: String::from("B"),
        typispreferred: true,
        typisdefined: true,
        typdelim: ',',
        typrelid: 0,
        typarray: 1000,
        typinput: 1242,
        typoutput: 1243,
        typreceive: 2436,
        typsend: 2437,
        typmodin: 0,
        typmodout: 0,
        typanalyze: 0,
        typalign: String::from("c"),
        typstorage: String::from("p"),
        typnotnull: false,
        typbasetype: 0,
        typtypmod: -1,
        typndims: 0,
        typcollation: 0,
        typdefaultbin: None,
        typdefault: None,
        typacl: None,
    }
}

#[test]
fn record_becomes_a_type_field_for_field() {
    let pg_type = PgType::from_record(bool_record()).unwrap();
    assert_eq!(
        pg_type,
        PgType {
            oid: Oid(16),
            name: String::from("bool"),
            namespace: Oid(11),
            owner: Oid(10),
            length: 1,
            by_value: true,
            type_type: TypeType::Base,
            category: TypeCategory::Boolean,
            is_preferred: true,
            is_defined: true,
            delimiter: ',',
            relation_id: Some(Oid(0)),
            subscript: None,
            element: None,
            array: Some(Oid(1000)),
            input: Regproc(1242),
            output: Regproc(1243),
            receive: Regproc(2436),
            send: Regproc(2437),
            mod_in: Regproc(0),
            mod_out: Regproc(0),
            analyze: Regproc(0),
            align: TypeAlign::Char,
            storage: TypeStorage::Plain,
            not_null: false,
            base_type: Some(Oid(0)),
            type_mod: Some(-1),
            dimensions: 0,
            collation: Some(Oid(0)),
            default_binary: None,
            default: None,
            acl: Vec::new(),
        }
    );
}

#[test]
fn record_keeps_its_defaults_and_privileges() {
    let grant = AclItem {
        grantee: Oid(1),
        grantor: Oid(2),
        privileges: AclMode::from_bits_truncate(ACL_READ | ACL_WRITE),
    };
    let mut record = bool_record();
    record.typtype = String::from("d");
    record.typcategory = String::from("S");
    record.typalign = String::from("d");
    record.typstorage = String::from("x");
    record.typlen = -1;
    record.typdefaultbin = Some(String::from("{CONST}"));
    record.typdefault = Some(String::from("'x'"));
    record.typacl = Some(vec![grant]);
    let pg_type = PgType::from_record(record).unwrap();
    assert_eq!(pg_type.type_type, TypeType::Domain);
    assert_eq!(pg_type.category, TypeCategory::String);
    assert_eq!(pg_type.align, TypeAlign::Double);
    assert_eq!(pg_type.storage, TypeStorage::Extended);
    assert_eq!(pg_type.length, -1);
    assert_eq!(pg_type.default_binary, Some(String::from("{CONST}")));
    assert_eq!(pg_type.default, Some(String::from("'x'")));
    assert_eq!(pg_type.acl, vec![grant]);
}

#[test]
fn record_with_an_unknown_kind() {
    let mut record = bool_record();
    record.typtype = String::from("z");
    record.typcategory = String::from("?");
    assert_eq!(PgType::from_record(record), Err(CatalogError::UnknownTypeType));
}

#[test]
fn record_with_an_unknown_family() {
    let mut record = bool_record();
    record.typcategory = String::from("b");
    record.typalign = String::from("?");
    assert_eq!(PgType::from_record(record), Err(CatalogError::UnknownCategory));
}

#[test]
fn record_with_an_unknown_alignment() {
    let mut record = bool_record();
    record.typalign = String::from("x");
    record.typstorage = String::from("?");
    assert_eq!(PgType::from_record(record), Err(CatalogError::UnknownAlign));
}

#[test]
fn record_with_an_unknown_storage() {
    let mut record = bool_record();
    record.typstorage = String::from("");
    assert_eq!(PgType::from_record(record), Err(CatalogError::UnknownStorage));
}

#[test]
fn type_type_codes() {
    let all = [
        (TypeType::Base, 'b'),
        (TypeType::Composite, 'c'),
        (TypeType::Domain, 'd'),
        (TypeType::Enum, 'e'),
        (TypeType::Multirange, 'm'),
        (TypeType::Pseudo, 'p'),
        (TypeType::Range, 'r'),
    ];
    for (variant, code) in all {
        assert_eq!(variant.code(), code);
        assert_eq!(TypeType::from_code(&code.to_string()), Some(variant));
    }
    assert_eq!(TypeType::from_code("B"), None);
    assert_eq!(TypeType::from_code(""), None);
    assert_eq!(TypeType::from_code("bb"), None);
    assert_eq!(TypeType::from_code("Base"), None);
}

#[test]
fn type_category_codes() {
    let all = [
        (TypeCategory::Invalid, '\0'),
        (TypeCategory::Array, 'A'),
        (TypeCategory::Boolean, 'B'),
        (TypeCategory::Composite, 'C'),
        (TypeCategory::DateTime, 'D'),
        (TypeCategory::Enum, 'E'),
        (TypeCategory::Geometric, 'G'),
        (TypeCategory::Network, 'I'),
        (TypeCategory::Numeric, 'N'),
        (TypeCategory::PseudoType, 'P'),
        (TypeCategory::Range, 'R'),
        (TypeCategory::String, 'S'),
        (TypeCategory::TimeSpan, 'T'),
        (TypeCategory::User, 'U'),
        (TypeCategory::BitString, 'V'),
        (TypeCategory::Unknown, 'X'),
        (TypeCategory::Internal, 'Z'),
    ];
    for (variant, code) in all {
        assert_eq!(variant.code(), code);
        assert_eq!(TypeCategory::from_code(&code.to_string()), Some(variant));
    }
    assert_eq!(TypeCategory::from_code("a"), None);
    assert_eq!(TypeCategory::from_code("F"), None);
    assert_eq!(TypeCategory::from_code("AB"), None);
    assert_eq!(TypeCategory::from_code(""), None);
}

#[test]
fn type_align_codes() {
    let all = [
        (TypeAlign::Char, 'c'),
        (TypeAlign::Short, 's'),
        (TypeAlign::Int, 'i'),
        (TypeAlign::Double, 'd'),
    ];
    for (variant, code) in all {
        assert_eq!(variant.code(), code);
        assert_eq!(TypeAlign::from_code(&code.to_string()), Some(variant));
    }
    assert_eq!(TypeAlign::from_code("x"), None);
    assert_eq!(TypeAlign::from_code("ci"), None);
}

#[test]
fn type_storage_codes() {
    let all = [
        (TypeStorage::Plain, 'p'),
        (TypeStorage::External, 'e'),
        (TypeStorage::Extended, 'x'),
        (TypeStorage::Main, 'm'),
    ];
    for (variant, code) in all {
        assert_eq!(variant.code(), code);
        assert_eq!(TypeStorage::from_code(&code.to_string()), Some(variant));
    }
    assert_eq!(TypeStorage::from_code("P"), None);
    assert_eq!(TypeStorage::from_code("\u{e9}"), None);
}

#[test]
fn privileges_keep_the_two_known_bits() {
    let mode = AclMode::from_bits_truncate(0xFFFF_FFFF_FFFF_FFFF);
    assert_eq!(mode.bits, 3);
    assert!(mode.contains(ACL_READ));
    assert!(mode.contains(ACL_WRITE));
    let read_only = AclMode::from_bits_truncate(0b0101);
    assert_eq!(read_only.bits, 1);
    assert!(read_only.contains(ACL_READ));
    assert!(!read_only.contains(ACL_WRITE));
}
