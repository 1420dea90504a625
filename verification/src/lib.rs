//! Decoder for fixed-size relational storage pages: page headers, line
//! pointers, heap tuples and the block-by-block walk over a byte stream.
//!
//! Every decoder is stated against a mathematical model of the bytes it
//! consumes (`Seq<u8>`), and the executable code is proved to compute exactly
//! what that model says.

pub mod endian;
pub mod error;
pub mod flags;
pub mod header;
pub mod ids;
pub mod item;
pub mod page;
pub mod reader;
pub mod stream;
pub mod tuple;
pub mod types;

pub use endian::{endianness_of_probe, get_system_endianness, Endianness};
pub use error::DecodeError;
pub use flags::{Infomask, Infomask2, LPFlags, PageFlags};
pub use header::{read_page_header, PageHeaderData, PAGE_HEADER_SIZE};
pub use ids::{CommandId, ItemPointerData, LocationIndex, PageXLogRecPtr, TransactionId};
pub use item::{read_item_identifiers, ItemIdData, ITEM_ID_SIZE};
pub use page::{BTreeIndex, PageLayout, SpecialSection, TableRow, Varlena};
pub use reader::{read_bytes, read_u16, read_u32, read_u64, read_u8, ByteReader};
pub use stream::{
    read_all_pages, read_pages, PageStreamReader, StreamFailure, StreamState,
    DEFAULT_POSTGRES_PAGE_SIZE,
};
pub use tuple::{HeapTuple, HeapTupleHeaderData, HEAP_TUPLE_HEADER_SIZE};
