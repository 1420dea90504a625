use crate::endian::Endianness;
use crate::error::DecodeError;
use crate::page::{
    lemma_page_line_pointer_count, lemma_page_offsets_in_order, spec_page, PageLayout,
    PageLayoutView,
};
use crate::reader::ByteReader;
use vstd::prelude::*;

verus! {

/// Size in bytes of a page unless the caller says otherwise.
pub const DEFAULT_POSTGRES_PAGE_SIZE: usize = 8192;

/// Where a walk over a stream of pages stands.
#[derive(Clone, Copy, Debug, PartialEq, Eq, Structural)]
pub enum StreamState {
    /// The next block is wanted.
    Reading,
    /// The input has ended, or an error has ended the walk.
    Done,
}

/// A walk that an error has ended: the pages decoded before it, and the error.
#[derive(Clone, Debug, PartialEq, Eq)]
pub struct StreamFailure {
    pub pages: Vec<PageLayout>,
    pub error: DecodeError,
}

/// The pages of `pages` as mathematical values.
pub open spec fn page_views(pages: Seq<PageLayout>) -> Seq<PageLayoutView> {
    Seq::new(pages.len(), |i: int| pages[i]@)
}

/// Each of `pages` has a place in `items` for every slot of its directory
/// and no more.
pub open spec fn all_slots_complete(pages: Seq<PageLayout>) -> bool {
    forall|i: int| 0 <= i < pages.len() ==> (#[trigger] pages[i]).slots_complete()
}

/// What a walk over a whole stream gives.
pub struct StreamOutcome {
    /// The pages decoded, in stream order.
    pub pages: Seq<PageLayoutView>,
    /// The error that ended the walk, if one did.
    pub error: Option<DecodeError>,
    /// The bytes behind the last block that was taken from the stream.
    pub rest: Seq<u8>,
}

/// The walk over `stream` in blocks of `page_size` bytes.
///
/// A block is taken from the front of the stream. Nothing left ends the walk
/// without an error. Less than a block left is a truncated stream. A whole
/// block is decoded as a page: an error ends the walk, a page is kept and the
/// walk goes on behind the block. Blocks of no bytes give no pages.
pub open spec fn spec_read_pages(stream: Seq<u8>, page_size: int, e: Endianness) -> StreamOutcome
    decreases stream.len(),
{
    if page_size <= 0 || stream.len() == 0 {
        StreamOutcome { pages: Seq::empty(), error: None, rest: stream }
    } else if stream.len() < page_size {
        StreamOutcome {
            pages: Seq::empty(),
            error: Some(DecodeError::Truncated),
            rest: Seq::empty(),
        }
    } else {
        match spec_page(stream.subrange(0, page_size), e) {
            Err(error) => StreamOutcome {
                pages: Seq::empty(),
                error: Some(error),
                rest: stream.skip(page_size),
            },
            Ok(page) => {
                let later = spec_read_pages(stream.skip(page_size), page_size, e);
                StreamOutcome {
                    pages: seq![page] + later.pages,
                    error: later.error,
                    rest: later.rest,
                }
            },
        }
    }
}

/// A walk accounts for its stream: each page stands for one whole block, a
/// walk without an error has used up the stream in whole blocks, and a
/// stream that does not end on a block boundary never ends without an
/// error. A stream shorter than one block is truncated and gives no page.
pub proof fn lemma_read_pages_accounts_for_stream(stream: Seq<u8>, page_size: int, e: Endianness)
    requires
        page_size > 0,
    ensures
        ({
            let outcome = spec_read_pages(stream, page_size, e);
            &&& outcome.pages.len() * page_size + outcome.rest.len() <= stream.len()
            &&& outcome.error is None ==> outcome.pages.len() * page_size == stream.len()
            &&& stream.len() % (page_size as nat) != 0 ==> outcome.error is Some
            &&& 0 < stream.len() < page_size ==> outcome.error == Some(DecodeError::Truncated)
                && outcome.pages.len() == 0
        }),
    decreases stream.len(),
{
    let outcome = spec_read_pages(stream, page_size, e);
    let count = outcome.pages.len();
    if stream.len() >= page_size && spec_page(stream.subrange(0, page_size), e) is Ok {
        let later = spec_read_pages(stream.skip(page_size), page_size, e);
        lemma_read_pages_accounts_for_stream(stream.skip(page_size), page_size, e);
        assert(count == later.pages.len() + 1);
        assert(count * page_size == later.pages.len() * page_size + page_size)
            by (nonlinear_arith)
            requires
                count == later.pages.len() + 1,
        ;
    } else {
        assert(count == 0);
        assert(count * page_size == 0) by (nonlinear_arith)
            requires
                count == 0,
        ;
    }
    if outcome.error is None {
        assert(stream.len() % (page_size as nat) == 0) by (nonlinear_arith)
            requires
                count * page_size == stream.len(),
                page_size > 0,
        ;
    }
}

/// The block with index `index` of a stream cut into blocks of `page_size`
/// bytes.
pub open spec fn spec_block(stream: Seq<u8>, page_size: int, index: int) -> Seq<u8> {
    stream.subrange(index * page_size, index * page_size + page_size)
}

/// Pages are decoded independently: the page with index `index` of a walk
/// is what the block with that index holds, whatever the other blocks
/// hold.
pub proof fn lemma_read_pages_page_by_page(
    stream: Seq<u8>,
    page_size: int,
    e: Endianness,
    index: int,
)
    requires
        0 <= index < spec_read_pages(stream, page_size, e).pages.len(),
    ensures
        page_size > 0,
        index * page_size + page_size <= stream.len(),
        spec_page(spec_block(stream, page_size, index), e) == Ok::<PageLayoutView, DecodeError>(
            spec_read_pages(stream, page_size, e).pages[index],
        ),
    decreases stream.len(),
{
    let first = stream.subrange(0, page_size);
    let behind = stream.skip(page_size);
    if index == 0 {
        assert(spec_block(stream, page_size, 0) =~= first);
    } else {
        let start = (index - 1) * page_size;
        lemma_read_pages_page_by_page(behind, page_size, e, index - 1);
        assert(start + page_size == index * page_size) by (nonlinear_arith)
            requires
                start == (index - 1) * page_size,
        ;
        assert(0 <= start) by (nonlinear_arith)
            requires
                start == (index - 1) * page_size,
                index >= 1,
                page_size > 0,
        ;
        assert(behind.subrange(start, start + page_size) =~= stream.subrange(
            start + page_size,
            start + page_size + page_size,
        ));
    }
}

/// Every page of a walk has its offsets in order within the page size, and
/// as many line pointers as its `pd_lower` says.
pub proof fn lemma_read_pages_pages_in_order(
    stream: Seq<u8>,
    page_size: int,
    e: Endianness,
    index: int,
)
    requires
        0 <= index < spec_read_pages(stream, page_size, e).pages.len(),
    ensures
        ({
            let page = spec_read_pages(stream, page_size, e).pages[index];
            &&& page.header.spec_layout_ok(page_size)
            &&& page.item_identifiers.len() == page.header.spec_line_pointer_count()
        }),
{
    let block = spec_block(stream, page_size, index);
    lemma_read_pages_page_by_page(stream, page_size, e, index);
    lemma_page_offsets_in_order(block, e);
    lemma_page_line_pointer_count(block, e);
}

/// A walk over a stream of pages that is fed one block at a time.
///
/// Whoever owns the input reads up to `page_size` bytes and hands them to
/// `step`, until the state is `Done`.
#[derive(Clone, Debug, PartialEq, Eq)]
pub struct PageStreamReader {
    pub endianness: Endianness,
    pub page_size: usize,
    pub state: StreamState,
    /// The pages decoded so far, in stream order.
    pub pages: Vec<PageLayout>,
    /// The error that ended the walk, if one did.
    pub error: Option<DecodeError>,
}

/// The step that a walk in state `before` makes on `chunk`, the result of
/// reading up to one block: `after` is the state it leads to.
///
/// A finished walk stays as it is. No bytes end the walk. A chunk that is
/// not a whole block ends it as truncated. A whole block is decoded: a page
/// is appended and the walk goes on, an error ends it.
pub open spec fn spec_step(
    before: PageStreamReader,
    chunk: Seq<u8>,
    after: PageStreamReader,
) -> bool {
    &&& after.endianness == before.endianness
    &&& after.page_size == before.page_size
    &&& if before.state == StreamState::Done {
        &&& after.state == StreamState::Done
        &&& after.pages@ == before.pages@
        &&& after.error == before.error
    } else if chunk.len() == 0 {
        &&& after.state == StreamState::Done
        &&& after.pages@ == before.pages@
        &&& after.error == before.error
    } else if chunk.len() != before.page_size {
        &&& after.state == StreamState::Done
        &&& after.pages@ == before.pages@
        &&& after.error == Some(DecodeError::Truncated)
    } else {
        match spec_page(chunk, before.endianness) {
            Ok(page) => {
                &&& after.state == StreamState::Reading
                &&& after.pages@.len() == before.pages@.len() + 1
                &&& after.pages@.drop_last() == before.pages@
                &&& after.pages@.last()@ == page
                &&& after.pages@.last().slots_complete()
                &&& after.error == before.error
            },
            Err(error) => {
                &&& after.state == StreamState::Done
                &&& after.pages@ == before.pages@
                &&& after.error == Some(error)
            },
        }
    }
}

impl PageStreamReader {
    /// A walk that has seen nothing yet.
    pub fn new(page_size: usize, endianness: Endianness) -> (walk: PageStreamReader)
        ensures
            walk.page_size == page_size,
            walk.endianness == endianness,
            walk.state == StreamState::Reading,
            walk.pages@.len() == 0,
            walk.error is None,
    {
        PageStreamReader {
            endianness,
            page_size,
            state: StreamState::Reading,
            pages: Vec::new(),
            error: None,
        }
    }

    /// Whether the walk has ended.
    pub fn is_done(&self) -> (done: bool)
        ensures
            done == (self.state == StreamState::Done),
    {
        self.state == StreamState::Done
    }

    /// Takes the result of reading up to one block from the input.
    pub fn step(&mut self, chunk: &[u8])
        ensures
            spec_step(*old(self), chunk@, *final(self)),
    {
        if self.state == StreamState::Done {
            return ;
        }
        if chunk.len() == 0 {
            self.state = StreamState::Done;
            return ;
        }
        if chunk.len() != self.page_size {
            self.state = StreamState::Done;
            self.error = Some(DecodeError::Truncated);
            return ;
        }
        let mut cursor = ByteReader::new(chunk);
        match PageLayout::from_reader(&mut cursor, self.endianness) {
            Ok(page) => {
                self.pages.push(page);
                assert(self.pages@.drop_last() =~= old(self).pages@);
            },
            Err(error) => {
                self.state = StreamState::Done;
                self.error = Some(error);
            },
        }
    }

    /// Ends the walk: the pages if no error ended it, else the pages decoded
    /// before the error together with the error.
    pub fn finish(self) -> (result: Result<Vec<PageLayout>, StreamFailure>)
        ensures
            match result {
                Ok(pages) => self.error is None && pages@ == self.pages@,
                Err(failure) => self.error == Some(failure.error) && failure.pages@
                    == self.pages@,
            },
    {
        match self.error {
            None => Ok(self.pages),
            Some(error) => Err(StreamFailure { pages: self.pages, error }),
        }
    }
}

/// Decodes a stream of pages of `page_size` bytes each, from the reader's
/// position to its end. The first error ends the walk; the pages decoded
/// before it come back with it. The reader is left behind the last block
/// that was taken from it.
pub fn read_pages(reader: &mut ByteReader, endianness: Endianness, page_size: usize) -> (result:
    Result<Vec<PageLayout>, StreamFailure>)
    ensures
        match result {
            Ok(pages) => spec_read_pages(old(reader).remaining(), page_size as int, endianness)
                == (StreamOutcome {
                pages: page_views(pages@),
                error: None,
                rest: final(reader).remaining(),
            }) && all_slots_complete(pages@),
            Err(failure) => spec_read_pages(
                old(reader).remaining(),
                page_size as int,
                endianness,
            ) == (StreamOutcome {
                pages: page_views(failure.pages@),
                error: Some(failure.error),
                rest: final(reader).remaining(),
            }) && all_slots_complete(failure.pages@),
        },
{
    let ghost stream = reader.remaining();
    let mut walk = PageStreamReader::new(page_size, endianness);
    while !walk.is_done()
        invariant
            walk.page_size == page_size,
            walk.endianness == endianness,
            walk.state == StreamState::Reading ==> walk.error is None,
            all_slots_complete(walk.pages@),
            walk.state == StreamState::Reading ==> ({
                let later = spec_read_pages(reader.remaining(), page_size as int, endianness);
                spec_read_pages(stream, page_size as int, endianness) == (StreamOutcome {
                    pages: page_views(walk.pages@) + later.pages,
                    error: later.error,
                    rest: later.rest,
                })
            }),
            walk.state == StreamState::Done ==> spec_read_pages(
                stream,
                page_size as int,
                endianness,
            ) == (StreamOutcome {
                pages: page_views(walk.pages@),
                error: walk.error,
                rest: reader.remaining(),
            }),
        decreases reader.remaining().len() + (if walk.state == StreamState::Reading {
            1int
        } else {
            0int
        }),
    {
        let left = reader.remaining_len();
        let wanted = if left < page_size {
            left
        } else {
            page_size
        };
        let ghost before = reader.remaining();
        let ghost pages_before = walk.pages@;
        let chunk = reader.take(wanted);
        walk.step(chunk);
        proof {
            assert forall|i: int| 0 <= i < walk.pages@.len() implies (#[trigger] walk.pages@[i])
                .slots_complete() by {
                if i < pages_before.len() && walk.pages@.len() > pages_before.len() {
                    assert(walk.pages@[i] == walk.pages@.drop_last()[i]);
                }
            }
            let later = spec_read_pages(before, page_size as int, endianness);
            if wanted == 0 {
                assert(before.skip(0) =~= before);
                assert(page_views(pages_before) + later.pages =~= page_views(pages_before));
            } else if wanted < page_size {
                assert(before.skip(wanted as int) =~= Seq::<u8>::empty());
                assert(page_views(pages_before) + later.pages =~= page_views(pages_before));
            } else {
                match spec_page(chunk@, endianness) {
                    Ok(page) => {
                        let after = spec_read_pages(
                            reader.remaining(),
                            page_size as int,
                            endianness,
                        );
                        assert(page_views(walk.pages@) =~= page_views(pages_before).push(page));
                        assert(page_views(pages_before) + (seq![page] + after.pages)
                            =~= page_views(walk.pages@) + after.pages);
                    },
                    Err(_) => {
                        assert(page_views(pages_before) + later.pages =~= page_views(
                            pages_before,
                        ));
                    },
                }
            }
        }
    }
    walk.finish()
}

/// Decodes a stream of pages of the default size.
pub fn read_all_pages(reader: &mut ByteReader, endianness: Endianness) -> (result: Result<
    Vec<PageLayout>,
    StreamFailure,
>)
    ensures
        match result {
            Ok(pages) => spec_read_pages(
                old(reader).remaining(),
                DEFAULT_POSTGRES_PAGE_SIZE as int,
                endianness,
            ) == (StreamOutcome {
                pages: page_views(pages@),
                error: None,
                rest: final(reader).remaining(),
            }) && all_slots_complete(pages@),
            Err(failure) => spec_read_pages(
                old(reader).remaining(),
                DEFAULT_POSTGRES_PAGE_SIZE as int,
                endianness,
            ) == (StreamOutcome {
                pages: page_views(failure.pages@),
                error: Some(failure.error),
                rest: final(reader).remaining(),
            }) && all_slots_complete(failure.pages@),
        },
{
    read_pages(reader, endianness, DEFAULT_POSTGRES_PAGE_SIZE)
}

} // verus!
