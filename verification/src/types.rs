use std::ops::Deref;
use vstd::prelude::*;
use vstd::string::StrSliceExecFns;

verus! {

/// Identifier of an object of the catalog.
#[derive(Clone, Copy, Debug, PartialEq, Eq, Structural)]
pub struct Oid(pub u32);

/// Identifier of a procedure of the catalog.
#[derive(Clone, Copy, Debug, PartialEq, Eq, Structural)]
pub struct Regproc(pub u32);

impl Deref for Oid {
    type Target = u32;

    fn deref(&self) -> (value: &u32)
        ensures
            *value == self.0,
    {
        &self.0
    }
}

impl Deref for Regproc {
    type Target = u32;

    fn deref(&self) -> (value: &u32)
        ensures
            *value == self.0,
    {
        &self.0
    }
}
/// How a data type came to be. The catalog writes each as a one-character code.
#[derive(Clone, Copy, Debug, PartialEq, Eq, Structural)]
pub enum TypeType {
    /// Code `b`.
    Base,
    /// Code `c`.
    Composite,
    /// Code `d`.
    Domain,
    /// Code `e`.
    Enum,
    /// Code `m`.
    Multirange,
    /// Code `p`.
    Pseudo,
    /// Code `r`.
    Range,
}

impl TypeType {
    /// The one-character code of the variant.
    pub open spec fn spec_code(self) -> char {
        match self {
            TypeType::Base => 'b',
            TypeType::Composite => 'c',
            TypeType::Domain => 'd',
            TypeType::Enum => 'e',
            TypeType::Multirange => 'm',
            TypeType::Pseudo => 'p',
            TypeType::Range => 'r',
        }
    }

    /// The variant that `code` stands for: the code must be the whole text.
    pub open spec fn spec_from_code(code: Seq<char>) -> Option<TypeType> {
        if code.len() != 1 {
            None
        } else if code[0] == 'b' {
            Some(TypeType::Base)
        } else if code[0] == 'c' {
            Some(TypeType::Composite)
        } else if code[0] == 'd' {
            Some(TypeType::Domain)
        } else if code[0] == 'e' {
            Some(TypeType::Enum)
        } else if code[0] == 'm' {
            Some(TypeType::Multirange)
        } else if code[0] == 'p' {
            Some(TypeType::Pseudo)
        } else if code[0] == 'r' {
            Some(TypeType::Range)
        } else {
            None
        }
    }

    /// The one-character code of the variant. Reading the code back gives
    /// the variant again.
    #[verifier::when_used_as_spec(spec_code)]
    pub fn code(self) -> (code: char)
        ensures
            code == self.spec_code(),
            Self::spec_from_code(seq![code]) == Some(self),
    {
        match self {
            TypeType::Base => 'b',
            TypeType::Composite => 'c',
            TypeType::Domain => 'd',
            TypeType::Enum => 'e',
            TypeType::Multirange => 'm',
            TypeType::Pseudo => 'p',
            TypeType::Range => 'r',
        }
    }

    /// Reads a variant from its code. Any other text, longer or shorter
    /// ones too, gives no variant.
    pub fn from_code(code: &str) -> (result: Option<TypeType>)
        ensures
            result == Self::spec_from_code(code@),
    {
        if code.unicode_len() != 1 {
            return None;
        }
        let first = code.get_char(0);
        if first == 'b' {
            Some(TypeType::Base)
        } else if first == 'c' {
            Some(TypeType::Composite)
        } else if first == 'd' {
            Some(TypeType::Domain)
        } else if first == 'e' {
            Some(TypeType::Enum)
        } else if first == 'm' {
            Some(TypeType::Multirange)
        } else if first == 'p' {
            Some(TypeType::Pseudo)
        } else if first == 'r' {
            Some(TypeType::Range)
        } else {
            None
        }
    }
}

/// The broad family of a data type, by which the parser picks conversions.
/// The catalog writes each as a one-character code.
#[derive(Clone, Copy, Debug, PartialEq, Eq, Structural)]
pub enum TypeCategory {
    /// Code `\0`.
    Invalid,
    /// Code `A`.
    Array,
    /// Code `B`.
    Boolean,
    /// Code `C`.
    Composite,
    /// Code `D`.
    DateTime,
    /// Code `E`.
    Enum,
    /// Code `G`.
    Geometric,
    /// Code `I`.
    Network,
    /// Code `N`.
    Numeric,
    /// Code `P`.
    PseudoType,
    /// Code `R`.
    Range,
    /// Code `S`.
    String,
    /// Code `T`.
    TimeSpan,
    /// Code `U`.
    User,
    /// Code `V`.
    BitString,
    /// Code `X`.
    Unknown,
    /// Code `Z`.
    Internal,
}

impl TypeCategory {
    /// The one-character code of the variant.
    pub open spec fn spec_code(self) -> char {
        match self {
            TypeCategory::Invalid => '\0',
            TypeCategory::Array => 'A',
            TypeCategory::Boolean => 'B',
            TypeCategory::Composite => 'C',
            TypeCategory::DateTime => 'D',
            TypeCategory::Enum => 'E',
            TypeCategory::Geometric => 'G',
            TypeCategory::Network => 'I',
            TypeCategory::Numeric => 'N',
            TypeCategory::PseudoType => 'P',
            TypeCategory::Range => 'R',
            TypeCategory::String => 'S',
            TypeCategory::TimeSpan => 'T',
            TypeCategory::User => 'U',
            TypeCategory::BitString => 'V',
            TypeCategory::Unknown => 'X',
            TypeCategory::Internal => 'Z',
        }
    }

    /// The variant that `code` stands for: the code must be the whole text.
    pub open spec fn spec_from_code(code: Seq<char>) -> Option<TypeCategory> {
        if code.len() != 1 {
            None
        } else if code[0] == '\0' {
            Some(TypeCategory::Invalid)
        } else if code[0] == 'A' {
            Some(TypeCategory::Array)
        } else if code[0] == 'B' {
            Some(TypeCategory::Boolean)
        } else if code[0] == 'C' {
            Some(TypeCategory::Composite)
        } else if code[0] == 'D' {
            Some(TypeCategory::DateTime)
        } else if code[0] == 'E' {
            Some(TypeCategory::Enum)
        } else if code[0] == 'G' {
            Some(TypeCategory::Geometric)
        } else if code[0] == 'I' {
            Some(TypeCategory::Network)
        } else if code[0] == 'N' {
            Some(TypeCategory::Numeric)
        } else if code[0] == 'P' {
            Some(TypeCategory::PseudoType)
        } else if code[0] == 'R' {
            Some(TypeCategory::Range)
        } else if code[0] == 'S' {
            Some(TypeCategory::String)
        } else if code[0] == 'T' {
            Some(TypeCategory::TimeSpan)
        } else if code[0] == 'U' {
            Some(TypeCategory::User)
        } else if code[0] == 'V' {
            Some(TypeCategory::BitString)
        } else if code[0] == 'X' {
            Some(TypeCategory::Unknown)
        } else if code[0] == 'Z' {
            Some(TypeCategory::Internal)
        } else {
            None
        }
    }

    /// The one-character code of the variant. Reading the code back gives
    /// the variant again.
    #[verifier::when_used_as_spec(spec_code)]
    pub fn code(self) -> (code: char)
        ensures
            code == self.spec_code(),
            Self::spec_from_code(seq![code]) == Some(self),
    {
        match self {
            TypeCategory::Invalid => '\0',
            TypeCategory::Array => 'A',
            TypeCategory::Boolean => 'B',
            TypeCategory::Composite => 'C',
            TypeCategory::DateTime => 'D',
            TypeCategory::Enum => 'E',
            TypeCategory::Geometric => 'G',
            TypeCategory::Network => 'I',
            TypeCategory::Numeric => 'N',
            TypeCategory::PseudoType => 'P',
            TypeCategory::Range => 'R',
            TypeCategory::String => 'S',
            TypeCategory::TimeSpan => 'T',
            TypeCategory::User => 'U',
            TypeCategory::BitString => 'V',
            TypeCategory::Unknown => 'X',
            TypeCategory::Internal => 'Z',
        }
    }

    /// Reads a variant from its code. Any other text, longer or shorter
    /// ones too, gives no variant.
    pub fn from_code(code: &str) -> (result: Option<TypeCategory>)
        ensures
            result == Self::spec_from_code(code@),
    {
        if code.unicode_len() != 1 {
            return None;
        }
        let first = code.get_char(0);
        if first == '\0' {
            Some(TypeCategory::Invalid)
        } else if first == 'A' {
            Some(TypeCategory::Array)
        } else if first == 'B' {
            Some(TypeCategory::Boolean)
        } else if first == 'C' {
            Some(TypeCategory::Composite)
        } else if first == 'D' {
            Some(TypeCategory::DateTime)
        } else if first == 'E' {
            Some(TypeCategory::Enum)
        } else if first == 'G' {
            Some(TypeCategory::Geometric)
        } else if first == 'I' {
            Some(TypeCategory::Network)
        } else if first == 'N' {
            Some(TypeCategory::Numeric)
        } else if first == 'P' {
            Some(TypeCategory::PseudoType)
        } else if first == 'R' {
            Some(TypeCategory::Range)
        } else if first == 'S' {
            Some(TypeCategory::String)
        } else if first == 'T' {
            Some(TypeCategory::TimeSpan)
        } else if first == 'U' {
            Some(TypeCategory::User)
        } else if first == 'V' {
            Some(TypeCategory::BitString)
        } else if first == 'X' {
            Some(TypeCategory::Unknown)
        } else if first == 'Z' {
            Some(TypeCategory::Internal)
        } else {
            None
        }
    }
}

/// The alignment that values of a data type need in storage. The catalog
/// writes each as a one-character code.
#[derive(Clone, Copy, Debug, PartialEq, Eq, Structural)]
pub enum TypeAlign {
    /// Code `c`.
    Char,
    /// Code `s`.
    Short,
    /// Code `i`.
    Int,
    /// Code `d`.
    Double,
}

impl TypeAlign {
    /// The one-character code of the variant.
    pub open spec fn spec_code(self) -> char {
        match self {
            TypeAlign::Char => 'c',
            TypeAlign::Short => 's',
            TypeAlign::Int => 'i',
            TypeAlign::Double => 'd',
        }
    }

    /// The variant that `code` stands for: the code must be the whole text.
    pub open spec fn spec_from_code(code: Seq<char>) -> Option<TypeAlign> {
        if code.len() != 1 {
            None
        } else if code[0] == 'c' {
            Some(TypeAlign::Char)
        } else if code[0] == 's' {
            Some(TypeAlign::Short)
        } else if code[0] == 'i' {
            Some(TypeAlign::Int)
        } else if code[0] == 'd' {
            Some(TypeAlign::Double)
        } else {
            None
        }
    }

    /// The one-character code of the variant. Reading the code back gives
    /// the variant again.
    #[verifier::when_used_as_spec(spec_code)]
    pub fn code(self) -> (code: char)
        ensures
            code == self.spec_code(),
            Self::spec_from_code(seq![code]) == Some(self),
    {
        match self {
            TypeAlign::Char => 'c',
            TypeAlign::Short => 's',
            TypeAlign::Int => 'i',
            TypeAlign::Double => 'd',
        }
    }

    /// Reads a variant from its code. Any other text, longer or shorter
    /// ones too, gives no variant.
    pub fn from_code(code: &str) -> (result: Option<TypeAlign>)
        ensures
            result == Self::spec_from_code(code@),
    {
        if code.unicode_len() != 1 {
            return None;
        }
        let first = code.get_char(0);
        if first == 'c' {
            Some(TypeAlign::Char)
        } else if first == 's' {
            Some(TypeAlign::Short)
        } else if first == 'i' {
            Some(TypeAlign::Int)
        } else if first == 'd' {
            Some(TypeAlign::Double)
        } else {
            None
        }
    }
}

/// How values of a data type may be moved out of line or compressed. The
/// catalog writes each as a one-character code.
#[derive(Clone, Copy, Debug, PartialEq, Eq, Structural)]
pub enum TypeStorage {
    /// Code `p`.
    Plain,
    /// Code `e`.
    External,
    /// Code `x`.
    Extended,
    /// Code `m`.
    Main,
}

impl TypeStorage {
    /// The one-character code of the variant.
    pub open spec fn spec_code(self) -> char {
        match self {
            TypeStorage::Plain => 'p',
            TypeStorage::External => 'e',
            TypeStorage::Extended => 'x',
            TypeStorage::Main => 'm',
        }
    }

    /// The variant that `code` stands for: the code must be the whole text.
    pub open spec fn spec_from_code(code: Seq<char>) -> Option<TypeStorage> {
        if code.len() != 1 {
            None
        } else if code[0] == 'p' {
            Some(TypeStorage::Plain)
        } else if code[0] == 'e' {
            Some(TypeStorage::External)
        } else if code[0] == 'x' {
            Some(TypeStorage::Extended)
        } else if code[0] == 'm' {
            Some(TypeStorage::Main)
        } else {
            None
        }
    }

    /// The one-character code of the variant. Reading the code back gives
    /// the variant again.
    #[verifier::when_used_as_spec(spec_code)]
    pub fn code(self) -> (code: char)
        ensures
            code == self.spec_code(),
            Self::spec_from_code(seq![code]) == Some(self),
    {
        match self {
            TypeStorage::Plain => 'p',
            TypeStorage::External => 'e',
            TypeStorage::Extended => 'x',
            TypeStorage::Main => 'm',
        }
    }

    /// Reads a variant from its code. Any other text, longer or shorter
    /// ones too, gives no variant.
    pub fn from_code(code: &str) -> (result: Option<TypeStorage>)
        ensures
            result == Self::spec_from_code(code@),
    {
        if code.unicode_len() != 1 {
            return None;
        }
        let first = code.get_char(0);
        if first == 'p' {
            Some(TypeStorage::Plain)
        } else if first == 'e' {
            Some(TypeStorage::External)
        } else if first == 'x' {
            Some(TypeStorage::Extended)
        } else if first == 'm' {
            Some(TypeStorage::Main)
        } else {
            None
        }
    }
}

/// Access privilege: reading.
pub const ACL_READ: u64 = 0b0001;

/// Access privilege: writing.
pub const ACL_WRITE: u64 = 0b0010;

/// All access privilege bits that have a meaning.
pub const ACL_VALID_BITS: u64 = 0b0011;

/// A set of access privileges.
#[derive(Clone, Copy, Debug, PartialEq, Eq, Structural)]
pub struct AclMode {
    pub bits: u64,
}

impl AclMode {
    /// The set that keeps the meaningful bits of `bits`.
    pub open spec fn spec_from_bits_truncate(bits: u64) -> AclMode {
        AclMode { bits: bits & ACL_VALID_BITS }
    }

    /// Keeps the meaningful bits of `bits`; unknown bits are dropped, never
    /// rejected.
    #[verifier::when_used_as_spec(spec_from_bits_truncate)]
    pub fn from_bits_truncate(bits: u64) -> (mode: AclMode)
        ensures
            mode == Self::spec_from_bits_truncate(bits),
    {
        AclMode { bits: bits & ACL_VALID_BITS }
    }

    /// Whether every bit of `mask` is set.
    pub fn contains(&self, mask: u64) -> (yes: bool)
        ensures
            yes == (self.bits & mask == mask),
    {
        self.bits & mask == mask
    }
}

/// One grant of privileges.
#[derive(Clone, Copy, Debug, PartialEq, Eq, Structural)]
pub struct AclItem {
    pub grantee: Oid,
    pub grantor: Oid,
    pub privileges: AclMode,
}

/// A row of the catalog of data types.
#[derive(Clone, Debug, PartialEq, Eq)]
pub struct PgType {
    /// Identifier of the type.
    pub oid: Oid,
    /// Name of the type.
    pub name: String,
    /// Namespace that holds the type.
    pub namespace: Oid,
    /// Owner of the type.
    pub owner: Oid,
    /// Size of a value in bytes; negative for types of variable length.
    pub length: i16,
    /// Whether values are passed by value rather than by reference.
    pub by_value: bool,
    /// How the type came to be.
    pub type_type: TypeType,
    /// Family of the type.
    pub category: TypeCategory,
    /// Whether the type is the preferred one of its family.
    pub is_preferred: bool,
    /// Whether the type is defined, not just a placeholder.
    pub is_defined: bool,
    /// Character that separates the elements of an array of the type.
    pub delimiter: char,
    /// The relation behind a composite type.
    pub relation_id: Option<Oid>,
    /// Procedure that handles subscripts on the type.
    pub subscript: Option<Regproc>,
    /// Type that a subscript yields.
    pub element: Option<Oid>,
    /// The array type whose elements are of this type.
    pub array: Option<Oid>,
    /// Conversion from text.
    pub input: Regproc,
    /// Conversion to text.
    pub output: Regproc,
    /// Conversion from the binary form.
    pub receive: Regproc,
    /// Conversion to the binary form.
    pub send: Regproc,
    /// Reader of type modifiers.
    pub mod_in: Regproc,
    /// Writer of type modifiers.
    pub mod_out: Regproc,
    /// Procedure that gathers statistics on the type.
    pub analyze: Regproc,
    /// Alignment of values in storage.
    pub align: TypeAlign,
    /// How values may be moved out of line or compressed.
    pub storage: TypeStorage,
    /// Whether values may not be null.
    pub not_null: bool,
    /// The type that a domain is based on.
    pub base_type: Option<Oid>,
    /// The type modifier that a domain applies to its base type.
    pub type_mod: Option<i32>,
    /// Number of dimensions of a domain over an array.
    pub dimensions: i32,
    /// Collation of the type.
    pub collation: Option<Oid>,
    /// Default value in the internal form.
    pub default_binary: Option<String>,
    /// Default value as text.
    pub default: Option<String>,
    /// Access privileges.
    pub acl: Vec<AclItem>,
}

/// A row of the catalog of data types as the bootstrap data writes it, field
/// for field, before the codes are read.
#[derive(Clone, Debug, PartialEq, Eq)]
pub struct PgTypeRecord {
    pub oid: u32,
    pub typname: String,
    pub typnamespace: u32,
    pub typowner: u32,
    pub typlen: i16,
    pub typbyval: bool,
    pub typtype: String,
    pub typcategory: String,
    pub typispreferred: bool,
    pub typisdefined: bool,
    pub typdelim: char,
    pub typrelid: u32,
    pub typarray: u32,
    pub typinput: u32,
    pub typoutput: u32,
    pub typreceive: u32,
    pub typsend: u32,
    pub typmodin: u32,
    pub typmodout: u32,
    pub typanalyze: u32,
    pub typalign: String,
    pub typstorage: String,
    pub typnotnull: bool,
    pub typbasetype: u32,
    pub typtypmod: i32,
    pub typndims: i32,
    pub typcollation: u32,
    pub typdefaultbin: Option<String>,
    pub typdefault: Option<String>,
    pub typacl: Option<Vec<AclItem>>,
}

/// Why a record of the catalog is no data type: one of its four codes is
/// none that the catalog knows.
#[derive(Clone, Copy, Debug, PartialEq, Eq, Structural)]
pub enum CatalogError {
    UnknownTypeType,
    UnknownCategory,
    UnknownAlign,
    UnknownStorage,
}

/// The first of the four codes of `record` that cannot be read, in the order
/// kind, family, alignment, storage.
pub open spec fn spec_record_error(record: PgTypeRecord) -> Option<CatalogError> {
    if TypeType::spec_from_code(record.typtype@) is None {
        Some(CatalogError::UnknownTypeType)
    } else if TypeCategory::spec_from_code(record.typcategory@) is None {
        Some(CatalogError::UnknownCategory)
    } else if TypeAlign::spec_from_code(record.typalign@) is None {
        Some(CatalogError::UnknownAlign)
    } else if TypeStorage::spec_from_code(record.typstorage@) is None {
        Some(CatalogError::UnknownStorage)
    } else {
        None
    }
}

/// `pg_type` is the data type that `record` describes: numbers become
/// identifiers, codes become variants, what the record cannot say stays
/// open, and a record without privileges has none.
pub open spec fn spec_describes(record: PgTypeRecord, pg_type: PgType) -> bool {
    &&& pg_type.oid == Oid(record.oid)
    &&& pg_type.name == record.typname
    &&& pg_type.namespace == Oid(record.typnamespace)
    &&& pg_type.owner == Oid(record.typowner)
    &&& pg_type.length == record.typlen
    &&& pg_type.by_value == record.typbyval
    &&& Some(pg_type.type_type) == TypeType::spec_from_code(record.typtype@)
    &&& Some(pg_type.category) == TypeCategory::spec_from_code(record.typcategory@)
    &&& pg_type.is_preferred == record.typispreferred
    &&& pg_type.is_defined == record.typisdefined
    &&& pg_type.delimiter == record.typdelim
    &&& pg_type.relation_id == Some(Oid(record.typrelid))
    &&& pg_type.subscript is None
    &&& pg_type.element is None
    &&& pg_type.array == Some(Oid(record.typarray))
    &&& pg_type.input == Regproc(record.typinput)
    &&& pg_type.output == Regproc(record.typoutput)
    &&& pg_type.receive == Regproc(record.typreceive)
    &&& pg_type.send == Regproc(record.typsend)
    &&& pg_type.mod_in == Regproc(record.typmodin)
    &&& pg_type.mod_out == Regproc(record.typmodout)
    &&& pg_type.analyze == Regproc(record.typanalyze)
    &&& Some(pg_type.align) == TypeAlign::spec_from_code(record.typalign@)
    &&& Some(pg_type.storage) == TypeStorage::spec_from_code(record.typstorage@)
    &&& pg_type.not_null == record.typnotnull
    &&& pg_type.base_type == Some(Oid(record.typbasetype))
    &&& pg_type.type_mod == Some(record.typtypmod)
    &&& pg_type.dimensions == record.typndims
    &&& pg_type.collation == Some(Oid(record.typcollation))
    &&& pg_type.default_binary == record.typdefaultbin
    &&& pg_type.default == record.typdefault
    &&& pg_type.acl@ == match record.typacl {
        Some(acl) => acl@,
        None => Seq::empty(),
    }
}

impl PgType {
    /// Makes a data type of a record of the catalog, or says which of its
    /// codes cannot be read.
    pub fn from_record(record: PgTypeRecord) -> (result: Result<PgType, CatalogError>)
        ensures
            match result {
                Ok(pg_type) => spec_record_error(record) is None && spec_describes(
                    record,
                    pg_type,
                ),
                Err(error) => spec_record_error(record) == Some(error),
            },
    {
        let type_type = match TypeType::from_code(record.typtype.as_str()) {
            Some(type_type) => type_type,
            None => {
                return Err(CatalogError::UnknownTypeType);
            },
        };
        let category = match TypeCategory::from_code(record.typcategory.as_str()) {
            Some(category) => category,
            None => {
                return Err(CatalogError::UnknownCategory);
            },
        };
        let align = match TypeAlign::from_code(record.typalign.as_str()) {
            Some(align) => align,
            None => {
                return Err(CatalogError::UnknownAlign);
            },
        };
        let storage = match TypeStorage::from_code(record.typstorage.as_str()) {
            Some(storage) => storage,
            None => {
                return Err(CatalogError::UnknownStorage);
            },
        };
        let acl = match record.typacl {
            Some(acl) => acl,
            None => Vec::new(),
        };
        Ok(
            PgType {
                oid: Oid(record.oid),
                name: record.typname,
                namespace: Oid(record.typnamespace),
                owner: Oid(record.typowner),
                length: record.typlen,
                by_value: record.typbyval,
                type_type,
                category,
                is_preferred: record.typispreferred,
                is_defined: record.typisdefined,
                delimiter: record.typdelim,
                relation_id: Some(Oid(record.typrelid)),
                subscript: None,
                element: None,
                array: Some(Oid(record.typarray)),
                input: Regproc(record.typinput),
                output: Regproc(record.typoutput),
                receive: Regproc(record.typreceive),
                send: Regproc(record.typsend),
                mod_in: Regproc(record.typmodin),
                mod_out: Regproc(record.typmodout),
                analyze: Regproc(record.typanalyze),
                align,
                storage,
                not_null: record.typnotnull,
                base_type: Some(Oid(record.typbasetype)),
                type_mod: Some(record.typtypmod),
                dimensions: record.typndims,
                collation: Some(Oid(record.typcollation)),
                default_binary: record.typdefaultbin,
                default: record.typdefault,
                acl,
            },
        )
    }
}

} // verus!
