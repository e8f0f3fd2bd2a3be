//! The logical read interface over the physical layouts of disc images.
//!
//! Every reader exposes one logical image: the bytes of the cooked
//! 2048-byte sectors in order. Parsers and filesystems read that image and
//! never see how the sectors are stored.

use vstd::prelude::*;
use vstd::slice::slice_subrange;
use crate::text::copy_bytes;

verus! {

/// Logical sector size for CD-ROM data (cooked).
pub const SECTOR_SIZE: u64 = 2048;

/// Raw CD-ROM sector size.
pub const RAW_SECTOR_SIZE: u64 = 2352;

/// Why a read failed.
#[derive(Debug, Clone, Copy)]
pub enum ReadError {
    /// The range reaches past the end of the image.
    UnexpectedEof,
    /// A decoded unit with this index does not exist.
    InvalidHunk,
    /// The file that holds the image does not exist.
    NotFound,
}

/// The range `[offset, offset + length)` lies within a sequence of `len` bytes.
pub open spec fn in_range(len: nat, offset: int, length: int) -> bool {
    0 <= offset && 0 <= length && offset + length <= len
}

/// A source of logical sectors.
pub trait SectorReader: Sized {
    /// The logical image: the user data of all readable sectors, in order.
    spec fn image(&self) -> Seq<u8>;

    /// The reader's invariant.
    spec fn wf(&self) -> bool;

    /// The image of a well-formed reader is no longer than an address allows.
    proof fn image_fits(&self)
        requires
            self.wf(),
        ensures
            self.image().len() <= usize::MAX,
    ;

    /// Reads the sector at the given logical block address.
    fn read_sector(&mut self, lba: u64) -> (r: Result<Vec<u8>, ReadError>)
        requires
            old(self).wf(),
        ensures
            final(self).wf(),
            final(self).image() == old(self).image(),
            r is Ok <==> in_range(old(self).image().len(), lba * 2048, 2048),
            r matches Ok(v) ==> v@ == old(self).image().subrange(lba * 2048, lba * 2048 + 2048),
    ;

    /// Reads `count` contiguous sectors; a partial result is never returned.
    fn read_sectors(&mut self, start_lba: u64, count: u64) -> (r: Result<Vec<u8>, ReadError>)
        requires
            old(self).wf(),
        ensures
            final(self).wf(),
            final(self).image() == old(self).image(),
            in_range(old(self).image().len(), start_lba * 2048, count * 2048) ==> r is Ok,
            r is Ok && count > 0 ==> in_range(
                old(self).image().len(),
                start_lba * 2048,
                count * 2048,
            ),
            r matches Ok(v) ==> v@.len() == count * 2048 && (count > 0 ==> v@ == old(self).image().subrange(start_lba * 2048, start_lba * 2048 + count * 2048)),
    ;

    /// Reads `length` bytes at a logical byte offset.
    fn read_bytes(&mut self, offset: u64, length: usize) -> (r: Result<Vec<u8>, ReadError>)
        requires
            old(self).wf(),
        ensures
            final(self).wf(),
            final(self).image() == old(self).image(),
            in_range(old(self).image().len(), offset as int, length as int) ==> r is Ok,
            r is Ok && length > 0 ==> in_range(
                old(self).image().len(),
                offset as int,
                length as int,
            ),
            r matches Ok(v) ==> v@.len() == length && (length > 0 ==> v@ == old(self).image().subrange(offset as int, offset + length)),
    ;

    /// The logical sector size.
    fn sector_size(&self) -> (r: u64)
        ensures
            r == SECTOR_SIZE,
    ;
}

/// Reader of a single-file image: fixed 2048-byte sectors, stored back to back.
pub struct IsoSectorReader {
    data: Vec<u8>,
}

impl IsoSectorReader {
    /// A reader over the bytes of an image file.
    pub fn new(data: Vec<u8>) -> (r: Self)
        ensures
            r.wf(),
            r.image() == data@,
    {
        IsoSectorReader { data }
    }
}

impl SectorReader for IsoSectorReader {
    closed spec fn image(&self) -> Seq<u8> {
        self.data@
    }

    open spec fn wf(&self) -> bool {
        true
    }

    proof fn image_fits(&self) {
        vstd::std_specs::vec::axiom_spec_len(&self.data);
    }

    fn read_sector(&mut self, lba: u64) -> (r: Result<Vec<u8>, ReadError>)
        ensures
            r is Err ==> r == Err::<Vec<u8>, ReadError>(ReadError::UnexpectedEof),
    {
        let len: usize = self.data.len();
        match lba.checked_mul(SECTOR_SIZE) {
            Some(offset) => self.read_bytes(offset, 2048),
            None => Err(ReadError::UnexpectedEof),
        }
    }

    fn read_sectors(&mut self, start_lba: u64, count: u64) -> (r: Result<Vec<u8>, ReadError>)
        ensures
            r is Ok <==> (count == 0 || in_range(
                old(self).image().len(),
                start_lba * 2048,
                count * 2048,
            )),
    {
        if count == 0 {
            return Ok(Vec::new());
        }
        let len: usize = self.data.len();
        let offset: u64 = match start_lba.checked_mul(SECTOR_SIZE) {
            Some(o) => o,
            None => {
                return Err(ReadError::UnexpectedEof);
            },
        };
        let length: u64 = match count.checked_mul(SECTOR_SIZE) {
            Some(l) => l,
            None => {
                return Err(ReadError::UnexpectedEof);
            },
        };
        if length > len as u64 {
            return Err(ReadError::UnexpectedEof);
        }
        self.read_bytes(offset, length as usize)
    }

    fn read_bytes(&mut self, offset: u64, length: usize) -> (r: Result<Vec<u8>, ReadError>)
        ensures
            r is Ok <==> (length == 0 || in_range(
                old(self).image().len(),
                offset as int,
                length as int,
            )),
            r is Err ==> r == Err::<Vec<u8>, ReadError>(ReadError::UnexpectedEof),
    {
        if length == 0 {
            return Ok(Vec::new());
        }
        let len: usize = self.data.len();
        if offset > len as u64 || length > len - (offset as usize) {
            return Err(ReadError::UnexpectedEof);
        }
        let start: usize = offset as usize;
        Ok(copy_bytes(self.data.as_slice(), start, start + length))
    }

    fn sector_size(&self) -> (r: u64) {
        SECTOR_SIZE
    }
}

/// Where the user data of sector `lba` begins in a strided layout.
pub open spec fn sector_start(base: int, stride: int, inner: int, lba: int) -> int {
    base + lba * stride + inner
}

/// The number of sectors whose user data lie wholly within `phys_len` bytes.
/// A stride shorter than a sector cannot hold one: such a layout has none.
pub open spec fn readable_sectors(phys_len: int, base: int, stride: int, inner: int) -> int {
    if stride < 2048 || phys_len < base + inner + 2048 {
        0
    } else {
        (phys_len - base - inner - 2048) / stride + 1
    }
}

/// The logical image of a strided layout: sector `lba` holds the 2048
/// physical bytes that begin at `base + lba * stride + inner`.
pub open spec fn strided_image(phys: Seq<u8>, base: int, stride: int, inner: int) -> Seq<u8> {
    Seq::new(
        (readable_sectors(phys.len() as int, base, stride, inner) * 2048) as nat,
        |i: int| phys[sector_start(base, stride, inner, i / 2048) + i % 2048],
    )
}

/// A sector is readable exactly when its user data end within the physical
/// bytes.
pub proof fn lemma_readable_sectors(phys_len: int, base: int, stride: int, inner: int, lba: int)
    requires
        stride >= 2048,
        base >= 0,
        inner >= 0,
        lba >= 0,
        phys_len >= 0,
    ensures
        readable_sectors(phys_len, base, stride, inner) >= 0,
        lba < readable_sectors(phys_len, base, stride, inner) <==> sector_start(
            base,
            stride,
            inner,
            lba,
        ) + 2048 <= phys_len,
{
    assert(lba * stride >= 0) by (nonlinear_arith)
        requires
            lba >= 0,
            stride > 0,
    ;
    if phys_len >= base + inner + 2048 {
        let x = phys_len - base - inner - 2048;
        let q = x / stride;
        let m = x % stride;
        vstd::arithmetic::div_mod::lemma_fundamental_div_mod(x, stride);
        vstd::arithmetic::div_mod::lemma_mod_bound(x, stride);
        assert(q >= 0 && (lba <= q <==> lba * stride <= x)) by (nonlinear_arith)
            requires
                x == stride * q + m,
                0 <= m < stride,
                x >= 0,
                lba >= 0,
        ;
    }
}

/// The bytes of a readable sector, in the logical image and in the physical
/// bytes, are the same.
pub proof fn lemma_strided_sector(phys: Seq<u8>, base: int, stride: int, inner: int, lba: int)
    requires
        stride >= 2048,
        base >= 0,
        inner >= 0,
        lba >= 0,
    ensures
        in_range(strided_image(phys, base, stride, inner).len(), lba * 2048, 2048) <==> sector_start(
            base,
            stride,
            inner,
            lba,
        ) + 2048 <= phys.len(),
        sector_start(base, stride, inner, lba) + 2048 <= phys.len() ==> strided_image(
            phys,
            base,
            stride,
            inner,
        ).subrange(lba * 2048, lba * 2048 + 2048) == phys.subrange(
            sector_start(base, stride, inner, lba),
            sector_start(base, stride, inner, lba) + 2048,
        ),
{
    lemma_readable_sectors(phys.len() as int, base, stride, inner, lba);
    let image = strided_image(phys, base, stride, inner);
    let start = sector_start(base, stride, inner, lba);
    if start + 2048 <= phys.len() {
        let a = image.subrange(lba * 2048, lba * 2048 + 2048);
        let b = phys.subrange(start, start + 2048);
        assert forall|j: int| 0 <= j < 2048 implies #[trigger] a[j] == b[j] by {
            assert((lba * 2048 + j) / 2048 == lba);
            assert((lba * 2048 + j) % 2048 == j);
            assert(a[j] == image[lba * 2048 + j]);
        }
        assert(a =~= b);
    }
}

/// A raw layout carries its logical content unchanged: where the user data
/// of every sector of `count` physical sectors are the bytes of the same
/// sector of `logical`, the image of the layout is `logical`. Whatever is
/// read or parsed through a reader is a function of its image, so a raw
/// image and a cooked image with the same content give the same results.
pub proof fn lemma_strided_image_is_content(
    phys: Seq<u8>,
    logical: Seq<u8>,
    count: int,
    stride: int,
    inner: int,
)
    requires
        count >= 0,
        stride >= 2048,
        0 <= inner,
        inner + 2048 <= stride,
        phys.len() == count * stride,
        logical.len() == count * 2048,
        forall|lba: int, j: int|
            0 <= lba < count && 0 <= j < 2048 ==> phys[lba * stride + inner + j] == #[trigger] logical[lba
                * 2048 + j],
    ensures
        strided_image(phys, 0, stride, inner) == logical,
{
    assert(count * stride >= 0) by (nonlinear_arith)
        requires
            count >= 0,
            stride >= 0,
    ;
    lemma_readable_sectors(phys.len() as int, 0, stride, inner, count);
    if count > 0 {
        lemma_readable_sectors(phys.len() as int, 0, stride, inner, count - 1);
        assert((count - 1) * stride + stride == count * stride) by (nonlinear_arith);
    }
    let n = readable_sectors(phys.len() as int, 0, stride, inner);
    assert(n == count);
    let image = strided_image(phys, 0, stride, inner);
    assert forall|i: int| 0 <= i < image.len() implies #[trigger] image[i] == logical[i] by {
        let lba = i / 2048;
        let j = i % 2048;
        assert(i == lba * 2048 + j);
        assert(0 <= lba < count);
        assert(logical[lba * 2048 + j] == phys[lba * stride + inner + j]);
    }
    assert(image =~= logical);
}

/// The image of a strided layout is a whole number of sectors.
pub proof fn lemma_strided_image_len(phys: Seq<u8>, base: int, stride: int, inner: int)
    requires
        base >= 0,
        inner >= 0,
    ensures
        strided_image(phys, base, stride, inner).len() % 2048 == 0,
        strided_image(phys, base, stride, inner).len() <= phys.len(),
{
    let n = readable_sectors(phys.len() as int, base, stride, inner);
    if stride >= 2048 && phys.len() >= base + inner + 2048 {
        lemma_readable_sectors(phys.len() as int, base, stride, inner, n - 1);
        assert((n - 1) * stride >= (n - 1) * 2048) by (nonlinear_arith)
            requires
                n >= 1,
                stride >= 2048,
        ;
    }
}

/// Where the user data of sector `lba` begin, if that fits in 64 bits.
pub fn strided_offset(base: u64, stride: u64, inner: u64, lba: u64) -> (r: Option<u64>)
    ensures
        match r {
            Some(o) => o == sector_start(base as int, stride as int, inner as int, lba as int),
            None => sector_start(base as int, stride as int, inner as int, lba as int) > u64::MAX,
        },
{
    let scaled: u64 = match lba.checked_mul(stride) {
        Some(v) => v,
        None => {
            return None;
        },
    };
    let framed: u64 = match base.checked_add(scaled) {
        Some(v) => v,
        None => {
            return None;
        },
    };
    framed.checked_add(inner)
}

/// A layout that hands out one logical sector at a time. Runs of sectors and
/// byte ranges are assembled from single sectors.
pub trait SectorSource: Sized {
    /// The user data of all readable sectors, in order.
    spec fn sectors(&self) -> Seq<u8>;

    /// The source's invariant.
    spec fn intact(&self) -> bool;

    /// What of the source a read leaves unchanged.
    spec fn kept(&self, before: &Self) -> bool;

    /// A read changes neither the sectors nor what `kept` speaks of.
    proof fn kept_sectors(&self, before: &Self)
        requires
            self.kept(before),
        ensures
            self.sectors() == before.sectors(),
    ;

    /// `kept` is reflexive and transitive.
    proof fn kept_chain(&self, middle: &Self, before: &Self)
        ensures
            self.kept(self),
            self.kept(middle) && middle.kept(before) ==> self.kept(before),
    ;

    /// The sectors are no longer than an address allows.
    proof fn sectors_fit(&self)
        requires
            self.intact(),
        ensures
            self.sectors().len() <= usize::MAX,
    ;

    /// Fetches the sector at the given logical block address.
    fn fetch_sector(&mut self, lba: u64) -> (r: Result<Vec<u8>, ReadError>)
        requires
            old(self).intact(),
        ensures
            final(self).intact(),
            final(self).kept(old(self)),
            r is Ok <==> in_range(old(self).sectors().len(), lba * 2048, 2048),
            r matches Ok(v) ==> v@ == old(self).sectors().subrange(lba * 2048, lba * 2048 + 2048),
    ;
}

/// Reads the sectors one at a time and concatenates them.
pub fn read_sector_run<R: SectorSource>(reader: &mut R, start_lba: u64, count: u64) -> (r: Result<
    Vec<u8>,
    ReadError,
>)
    requires
        old(reader).intact(),
    ensures
        final(reader).intact(),
        final(reader).kept(old(reader)),
        r is Ok <==> (count == 0 || in_range(
            old(reader).sectors().len(),
            start_lba * 2048,
            count * 2048,
        )),
        r matches Ok(v) ==> v@.len() == count * 2048 && (count > 0 ==> v@ == old(reader).sectors().subrange(start_lba * 2048, start_lba * 2048 + count * 2048)),
{
    let ghost image = reader.sectors();
    let mut out: Vec<u8> = Vec::new();
    proof {
        reader.kept_chain(reader, reader);
    }
    let mut i: u64 = 0;
    while i < count
        invariant
            i <= count,
            reader.intact(),
            reader.sectors() == image,
            reader.kept(old(reader)),
            image == old(reader).sectors(),
            out@.len() == i * 2048,
            i > 0 ==> in_range(image.len(), start_lba * 2048, i * 2048),
            i > 0 ==> out@ == image.subrange(start_lba * 2048, start_lba * 2048 + i * 2048),
        decreases count - i,
    {
        let lba: u64 = match start_lba.checked_add(i) {
            Some(v) => v,
            None => {
                proof {
                    reader.sectors_fit();
                }
                return Err(ReadError::UnexpectedEof);
            },
        };
        let ghost before = *reader;
        let step = reader.fetch_sector(lba);
        proof {
            reader.kept_sectors(&before);
            reader.kept_chain(&before, old(reader));
        }
        match step {
            Ok(sector) => {
                proof {
                    let from = start_lba * 2048;
                    assert(image.subrange(from, from + (i + 1) * 2048) =~= out@ + sector@) by {
                        if i == 0 {
                            assert(out@ =~= Seq::<u8>::empty());
                        }
                    }
                }
                out.extend_from_slice(sector.as_slice());
            },
            Err(e) => {
                return Err(e);
            },
        }
        i = i + 1;
    }
    Ok(out)
}

/// The sectors `[first, end)` that hold the bytes `[offset, offset + length)`
/// are all within an image of `len` bytes.
pub open spec fn span_covered(len: nat, offset: int, length: int) -> bool {
    let first = offset / 2048;
    let end = (offset + length + 2047) / 2048;
    end == first || end * 2048 <= len
}

/// Reads the sectors that hold a byte range and cuts the range out of them.
pub fn read_byte_span<R: SectorSource>(reader: &mut R, offset: u64, length: usize) -> (r: Result<
    Vec<u8>,
    ReadError,
>)
    requires
        old(reader).intact(),
    ensures
        final(reader).intact(),
        final(reader).kept(old(reader)),
        r is Ok <==> span_covered(old(reader).sectors().len(), offset as int, length as int),
        r matches Ok(v) ==> v@.len() == length && (length > 0 ==> v@ == old(reader).sectors().subrange(offset as int, offset + length)),
{
    let first: u64 = offset / SECTOR_SIZE;
    let inner: usize = (offset % SECTOR_SIZE) as usize;
    let end_offset: u128 = offset as u128 + length as u128;
    let end: u64 = ((end_offset + 2047) / 2048) as u64;
    let count: u64 = end - first;
    let fetched = read_sector_run(reader, first, count);
    proof {
        reader.kept_sectors(old(reader));
    }
    let sectors = match fetched {
        Ok(v) => v,
        Err(e) => {
            return Err(e);
        },
    };
    let total: usize = sectors.len();
    assert(inner + length <= total);
    let out = copy_bytes(sectors.as_slice(), inner, inner + length);
    proof {
        if length > 0 {
            assert(out@ =~= old(reader).sectors().subrange(offset as int, offset + length));
        }
    }
    Ok(out)
}

/// Geometry of one data track of a track-sheet image.
#[derive(Debug, Clone)]
pub struct TrackInfo {
    /// Track number (1-based).
    pub number: u32,
    /// Physical byte offset of the track in the binary file.
    pub file_offset: u64,
    /// Physical sector size (2048, 2336 or 2352).
    pub sector_size: u64,
    /// Offset of the user data within a physical sector.
    pub data_offset: u64,
    /// Number of sectors in the track.
    pub sector_count: u64,
    /// Whether the track holds data.
    pub is_data: bool,
}

/// Reader of a track-sheet image: the sectors of one data track, each
/// `sector_size` bytes long with the user data `data_offset` bytes in.
pub struct BinCueSectorReader {
    data: Vec<u8>,
    data_track: TrackInfo,
}

impl BinCueSectorReader {
    /// The geometry this reader was made with.
    pub closed spec fn track(&self) -> TrackInfo {
        self.data_track
    }

    /// The physical bytes of the binary file.
    pub closed spec fn physical(&self) -> Seq<u8> {
        self.data@
    }

    /// A reader over the bytes of a binary file, with the geometry of its
    /// first data track.
    pub fn new(data: Vec<u8>, track: TrackInfo) -> (r: Self)
        ensures
            r.wf(),
            r.track() == track,
            r.physical() == data@,
    {
        BinCueSectorReader { data, data_track: track }
    }

    /// The physical byte offset of the user data of sector `lba`.
    pub fn calculate_offset(&self, lba: u64) -> (r: Option<u64>)
        ensures
            match r {
                Some(o) => o == sector_start(
                    self.track().file_offset as int,
                    self.track().sector_size as int,
                    self.track().data_offset as int,
                    lba as int,
                ),
                None => sector_start(
                    self.track().file_offset as int,
                    self.track().sector_size as int,
                    self.track().data_offset as int,
                    lba as int,
                ) > u64::MAX,
            },
    {
        strided_offset(
            self.data_track.file_offset,
            self.data_track.sector_size,
            self.data_track.data_offset,
            lba,
        )
    }
}

impl SectorSource for BinCueSectorReader {
    open spec fn sectors(&self) -> Seq<u8> {
        strided_image(
            self.physical(),
            self.track().file_offset as int,
            self.track().sector_size as int,
            self.track().data_offset as int,
        )
    }

    open spec fn intact(&self) -> bool {
        true
    }

    open spec fn kept(&self, before: &Self) -> bool {
        self.track() == before.track() && self.physical() == before.physical()
    }

    proof fn kept_sectors(&self, before: &Self) {
    }

    proof fn kept_chain(&self, middle: &Self, before: &Self) {
    }

    proof fn sectors_fit(&self) {
        vstd::std_specs::vec::axiom_spec_len(&self.data);
        lemma_strided_image_len(
            self.physical(),
            self.track().file_offset as int,
            self.track().sector_size as int,
            self.track().data_offset as int,
        );
    }

    fn fetch_sector(&mut self, lba: u64) -> (r: Result<Vec<u8>, ReadError>)
        ensures
            r is Err ==> r == Err::<Vec<u8>, ReadError>(ReadError::UnexpectedEof),
    {
        let len: usize = self.data.len();
        if self.data_track.sector_size < SECTOR_SIZE {
            return Err(ReadError::UnexpectedEof);
        }
        proof {
            lemma_strided_sector(
                self.physical(),
                self.track().file_offset as int,
                self.track().sector_size as int,
                self.track().data_offset as int,
                lba as int,
            );
        }
        match self.calculate_offset(lba) {
            Some(start) => {
                if start > len as u64 || 2048 > len - (start as usize) {
                    return Err(ReadError::UnexpectedEof);
                }
                Ok(copy_bytes(self.data.as_slice(), start as usize, start as usize + 2048))
            },
            None => Err(ReadError::UnexpectedEof),
        }
    }
}

impl SectorReader for BinCueSectorReader {
    open spec fn image(&self) -> Seq<u8> {
        self.sectors()
    }

    open spec fn wf(&self) -> bool {
        true
    }

    proof fn image_fits(&self) {
        self.sectors_fit();
    }

    fn read_sector(&mut self, lba: u64) -> (r: Result<Vec<u8>, ReadError>)
        ensures
            final(self).kept(old(self)),
            r is Err ==> r == Err::<Vec<u8>, ReadError>(ReadError::UnexpectedEof),
    {
        self.fetch_sector(lba)
    }

    fn read_sectors(&mut self, start_lba: u64, count: u64) -> (r: Result<Vec<u8>, ReadError>)
        ensures
            final(self).kept(old(self)),
            r is Ok <==> (count == 0 || in_range(
                old(self).image().len(),
                start_lba * 2048,
                count * 2048,
            )),
    {
        read_sector_run(self, start_lba, count)
    }

    fn read_bytes(&mut self, offset: u64, length: usize) -> (r: Result<Vec<u8>, ReadError>)
        ensures
            final(self).kept(old(self)),
            r is Ok <==> ((length == 0 && offset % 2048 == 0) || in_range(
                old(self).image().len(),
                offset as int,
                length as int,
            )),
    {
        proof {
            lemma_strided_image_len(
                self.physical(),
                self.track().file_offset as int,
                self.track().sector_size as int,
                self.track().data_offset as int,
            );
        }
        read_byte_span(self, offset, length)
    }

    fn sector_size(&self) -> (r: u64) {
        SECTOR_SIZE
    }
}

/// The number of whole decoded units in `data_len` bytes.
pub open spec fn whole_units(data_len: int, hunk_size: int) -> int {
    if hunk_size <= 0 {
        0
    } else {
        data_len / hunk_size
    }
}

/// The decoded stream of a compressed-hunk image: its whole units, back to back.
pub open spec fn hunk_stream(data: Seq<u8>, hunk_size: int) -> Seq<u8> {
    data.take(whole_units(data.len() as int, hunk_size) * hunk_size)
}

/// The logical image of a compressed-hunk image whose data track begins
/// `track_offset` bytes into the decoded stream and is stored in frames of
/// `frame_size` bytes, the user data `data_offset` bytes into each. Units
/// shorter than a sector give no image.
pub open spec fn hunk_image(
    data: Seq<u8>,
    hunk_size: int,
    track_offset: int,
    frame_size: int,
    data_offset: int,
) -> Seq<u8> {
    if hunk_size < 2048 {
        Seq::empty()
    } else {
        strided_image(hunk_stream(data, hunk_size), track_offset, frame_size, data_offset)
    }
}

/// Unit `k` is whole exactly when it ends within the data.
pub proof fn lemma_whole_units(data_len: int, hunk_size: int, k: int)
    requires
        hunk_size > 0,
        data_len >= 0,
        k >= 0,
    ensures
        k < whole_units(data_len, hunk_size) <==> (k + 1) * hunk_size <= data_len,
        0 <= whole_units(data_len, hunk_size) * hunk_size <= data_len,
        k * hunk_size >= 0,
{
    let q = data_len / hunk_size;
    let m = data_len % hunk_size;
    vstd::arithmetic::div_mod::lemma_fundamental_div_mod(data_len, hunk_size);
    vstd::arithmetic::div_mod::lemma_mod_bound(data_len, hunk_size);
    assert((k < q <==> (k + 1) * hunk_size <= data_len) && 0 <= q * hunk_size <= data_len && k
        * hunk_size >= 0) by (nonlinear_arith)
        requires
            data_len == hunk_size * q + m,
            0 <= m < hunk_size,
            data_len >= 0,
            k >= 0,
    ;
}

/// Reader of a compressed-hunk image. The decoded units are held back to
/// back; the unit read last is kept, so that reads nearby fetch it once.
pub struct ChdSectorReader {
    data: Vec<u8>,
    hunk_size: u32,
    track_frame_offset: u64,
    frame_size: u32,
    data_offset: usize,
    cached_hunk: Option<(u64, Vec<u8>)>,
}

impl ChdSectorReader {
    /// The decoded bytes.
    pub closed spec fn decoded(&self) -> Seq<u8> {
        self.data@
    }

    /// The size of a decoded unit.
    pub closed spec fn unit_size(&self) -> int {
        self.hunk_size as int
    }

    /// Byte offset of the data track in the decoded stream.
    pub closed spec fn track_offset(&self) -> int {
        self.track_frame_offset as int
    }

    /// The size of a frame.
    pub closed spec fn frame(&self) -> int {
        self.frame_size as int
    }

    /// Offset of the user data within a frame.
    pub closed spec fn inner_offset(&self) -> int {
        self.data_offset as int
    }

    /// The unit that is kept, with its index.
    pub closed spec fn cached(&self) -> Option<(u64, Seq<u8>)> {
        match self.cached_hunk {
            Some((i, d)) => Some((i, d@)),
            None => None,
        }
    }

    /// The bytes of unit `k`.
    pub open spec fn unit(&self, k: int) -> Seq<u8> {
        self.decoded().subrange(k * self.unit_size(), (k + 1) * self.unit_size())
    }

    /// A reader over decoded units, nothing cached.
    pub fn new(
        data: Vec<u8>,
        hunk_size: u32,
        track_frame_offset: u64,
        frame_size: u32,
        data_offset: usize,
    ) -> (r: Self)
        ensures
            r.wf(),
            r.decoded() == data@,
            r.unit_size() == hunk_size,
            r.track_offset() == track_frame_offset,
            r.frame() == frame_size,
            r.inner_offset() == data_offset,
            r.cached() is None,
    {
        ChdSectorReader {
            data,
            hunk_size,
            track_frame_offset,
            frame_size,
            data_offset,
            cached_hunk: None,
        }
    }

    /// The decoded bytes are no longer than an address allows.
    pub proof fn lemma_decoded_fits(&self)
        ensures
            self.decoded().len() <= usize::MAX,
    {
        vstd::std_specs::vec::axiom_spec_len(&self.data);
    }

    /// The size of a decoded unit.
    pub fn hunk_size(&self) -> (r: u32)
        ensures
            r == self.unit_size(),
    {
        self.hunk_size
    }

    /// The number of decoded bytes.
    pub fn decoded_len(&self) -> (r: usize)
        ensures
            r == self.decoded().len(),
    {
        self.data.len()
    }

    /// Reads one decoded unit, from the cache if it is the one kept there,
    /// and keeps it.
    pub fn read_hunk(&mut self, hunk_index: u64) -> (r: Result<Vec<u8>, ReadError>)
        requires
            old(self).intact(),
        ensures
            final(self).intact(),
            final(self).kept(old(self)),
            r is Ok <==> hunk_index < whole_units(
                old(self).decoded().len() as int,
                old(self).unit_size(),
            ),
            r matches Ok(v) ==> v@ == old(self).unit(hunk_index as int) && final(self).cached()
                == Some((hunk_index, v@)),
            r is Err ==> r == Err::<Vec<u8>, ReadError>(ReadError::InvalidHunk) && final(self).cached() == old(self).cached(),
    {
        let size: u64 = self.hunk_size as u64;
        let len: usize = self.data.len();
        if size == 0 {
            return Err(ReadError::InvalidHunk);
        }
        proof {
            lemma_whole_units(len as int, size as int, hunk_index as int);
        }
        match &self.cached_hunk {
            Some((index, unit)) => {
                if *index == hunk_index {
                    let copy = copy_bytes(unit.as_slice(), 0, unit.len());
                    proof {
                        assert(copy@ =~= unit@);
                    }
                    return Ok(copy);
                }
            },
            None => {},
        }
        if hunk_index >= len as u64 / size {
            return Err(ReadError::InvalidHunk);
        }
        proof {
            assert((hunk_index + 1) * size == hunk_index * size + size) by (nonlinear_arith);
            assert(hunk_index * size >= 0) by (nonlinear_arith);
        }
        let start: usize = (hunk_index * size) as usize;
        let unit = copy_bytes(self.data.as_slice(), start, start + size as usize);
        let copy = copy_bytes(unit.as_slice(), 0, unit.len());
        proof {
            assert(copy@ =~= unit@);
        }
        self.cached_hunk = Some((hunk_index, copy));
        Ok(unit)
    }
}

impl SectorSource for ChdSectorReader {
    open spec fn sectors(&self) -> Seq<u8> {
        hunk_image(
            self.decoded(),
            self.unit_size(),
            self.track_offset(),
            self.frame(),
            self.inner_offset(),
        )
    }

    open spec fn intact(&self) -> bool {
        match self.cached() {
            Some((k, unit)) => k < whole_units(self.decoded().len() as int, self.unit_size())
                && unit == self.unit(k as int),
            None => true,
        }
    }

    open spec fn kept(&self, before: &Self) -> bool {
        &&& self.decoded() == before.decoded()
        &&& self.unit_size() == before.unit_size()
        &&& self.track_offset() == before.track_offset()
        &&& self.frame() == before.frame()
        &&& self.inner_offset() == before.inner_offset()
    }

    proof fn kept_sectors(&self, before: &Self) {
    }

    proof fn kept_chain(&self, middle: &Self, before: &Self) {
    }

    proof fn sectors_fit(&self) {
        vstd::std_specs::vec::axiom_spec_len(&self.data);
        if self.unit_size() >= 2048 {
            lemma_whole_units(self.decoded().len() as int, self.unit_size(), 0);
            lemma_strided_image_len(
                hunk_stream(self.decoded(), self.unit_size()),
                self.track_offset(),
                self.frame(),
                self.inner_offset(),
            );
        }
    }

    fn fetch_sector(&mut self, lba: u64) -> (r: Result<Vec<u8>, ReadError>)
        ensures
            r is Err ==> r == Err::<Vec<u8>, ReadError>(ReadError::InvalidHunk),
    {
        let size: u64 = self.hunk_size as u64;
        let len: usize = self.data.len();
        if size < 2048 || (self.frame_size as u64) < SECTOR_SIZE {
            return Err(ReadError::InvalidHunk);
        }
        let ghost stream = hunk_stream(self.decoded(), size as int);
        let ghost units = whole_units(len as int, size as int);
        proof {
            lemma_strided_sector(
                stream,
                self.track_offset(),
                self.frame(),
                self.inner_offset(),
                lba as int,
            );
            lemma_whole_units(len as int, size as int, 0);
        }
        let start: u64 = match strided_offset(
            self.track_frame_offset,
            self.frame_size as u64,
            self.data_offset as u64,
            lba,
        ) {
            Some(v) => v,
            None => {
                return Err(ReadError::InvalidHunk);
            },
        };
        let index: u64 = start / size;
        let within: u64 = start % size;
        proof {
            vstd::arithmetic::div_mod::lemma_fundamental_div_mod(start as int, size as int);
            vstd::arithmetic::div_mod::lemma_mod_bound(start as int, size as int);
            lemma_whole_units(len as int, size as int, index as int);
            lemma_whole_units(len as int, size as int, index + 1);
            assert(size * index == index * size) by (nonlinear_arith);
            assert(start == index * size + within);
            assert(stream.len() == units * size);
            assert(index <= start) by (nonlinear_arith)
                requires
                    start == index * size + within,
                    size >= 1,
                    within >= 0,
                    index >= 0,
            ;
            assert((index + 1) * size == index * size + size) by (nonlinear_arith);
            assert((index + 2) * size == index * size + size + size) by (nonlinear_arith);
            assert(units * size >= (index + 1) * size <==> units >= index + 1) by (nonlinear_arith)
                requires
                    size > 0,
            ;
            assert(units * size >= (index + 2) * size <==> units >= index + 2) by (nonlinear_arith)
                requires
                    size > 0,
            ;
            assert(index >= units ==> index * size >= units * size) by (nonlinear_arith)
                requires
                    size > 0,
            ;
        }
        let first = match self.read_hunk(index) {
            Ok(v) => v,
            Err(e) => {
                return Err(e);
            },
        };
        if within + 2048 <= size {
            let out = copy_bytes(first.as_slice(), within as usize, within as usize + 2048);
            proof {
                assert(out@ =~= stream.subrange(start as int, start + 2048));
            }
            Ok(out)
        } else {
            let head: u64 = size - within;
            let tail: u64 = 2048 - head;
            let second = match self.read_hunk(index + 1) {
                Ok(v) => v,
                Err(e) => {
                    return Err(e);
                },
            };
            let mut out = copy_bytes(first.as_slice(), within as usize, size as usize);
            out.extend_from_slice(slice_subrange(second.as_slice(), 0, tail as usize));
            proof {
                assert(out@ =~= stream.subrange(start as int, start + 2048));
            }
            Ok(out)
        }
    }
}

impl SectorReader for ChdSectorReader {
    open spec fn image(&self) -> Seq<u8> {
        self.sectors()
    }

    open spec fn wf(&self) -> bool {
        self.intact()
    }

    proof fn image_fits(&self) {
        self.sectors_fit();
    }

    fn read_sector(&mut self, lba: u64) -> (r: Result<Vec<u8>, ReadError>)
        ensures
            final(self).kept(old(self)),
            r is Err ==> r == Err::<Vec<u8>, ReadError>(ReadError::InvalidHunk),
    {
        self.fetch_sector(lba)
    }

    fn read_sectors(&mut self, start_lba: u64, count: u64) -> (r: Result<Vec<u8>, ReadError>)
        ensures
            final(self).kept(old(self)),
            r is Ok <==> (count == 0 || in_range(
                old(self).image().len(),
                start_lba * 2048,
                count * 2048,
            )),
    {
        read_sector_run(self, start_lba, count)
    }

    fn read_bytes(&mut self, offset: u64, length: usize) -> (r: Result<Vec<u8>, ReadError>)
        ensures
            final(self).kept(old(self)),
            r is Ok <==> ((length == 0 && offset % 2048 == 0) || in_range(
                old(self).image().len(),
                offset as int,
                length as int,
            )),
    {
        proof {
            if self.unit_size() >= 2048 {
                lemma_whole_units(self.decoded().len() as int, self.unit_size(), 0);
                lemma_strided_image_len(
                    hunk_stream(self.decoded(), self.unit_size()),
                    self.track_offset(),
                    self.frame(),
                    self.inner_offset(),
                );
            }
        }
        read_byte_span(self, offset, length)
    }

    fn sector_size(&self) -> (r: u64) {
        SECTOR_SIZE
    }
}

} // verus!
