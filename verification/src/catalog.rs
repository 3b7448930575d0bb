//! The catalog types and the decoder proper: header, raw record,
//! canonical star, and the one-pass assembly of a whole catalog.

use vstd::prelude::*;

use crate::DecodeError;
use crate::binary32::{is_valid_star_number, star_number_valid, trunc_f32_bits_to_u32, trunc_to_u32};
use crate::reader::{
    ByteReader, le_i16_at, le_i32_at, le_u32_at, le_u64_at, read_char, read_i16, read_i32,
    read_u32, read_u64,
};

verus! {

/// The 28-byte file header, exactly as it sits on disk: seven
/// consecutive little-endian 32-bit fields. No validation happens
/// here; the assembler judges the fields.
#[derive(Clone, Copy, Debug, PartialEq, Eq, Structural)]
pub struct RawHeader {
    /// Lowest star index covered (unused by the decoder).
    pub star0: i32,
    /// Highest star index covered (unused by the decoder).
    pub star1: i32,
    /// Signed record count; the sign encodes the equinox.
    pub starn: i32,
    /// Star-ID-type code, meaningful only in {0, 1, 2}.
    pub stnum: i32,
    /// Whether the proper-motion fields of the records are valid.
    pub mprop: bool,
    /// Number of magnitudes present (unused by the decoder).
    pub nmag: i32,
    /// Bytes per record; anything but 32 makes the file unparseable.
    pub nbent: i32,
}

/// The header encoded by the 28 bytes of `d` at offset `p`.
pub open spec fn spec_header_at(d: Seq<u8>, p: int) -> RawHeader {
    RawHeader {
        star0: le_i32_at(d, p),
        star1: le_i32_at(d, p + 4),
        starn: le_i32_at(d, p + 8),
        stnum: le_i32_at(d, p + 12),
        mprop: le_i32_at(d, p + 16) != 0,
        nmag: le_i32_at(d, p + 20),
        nbent: le_i32_at(d, p + 24),
    }
}

impl RawHeader {
    /// Reads the seven header fields in their fixed order.
    pub fn read_from(r: &mut ByteReader) -> (res: Result<RawHeader, DecodeError>)
        requires
            old(r).wf(),
        ensures
            final(r).wf(),
            final(r).data_seq() == old(r).data_seq(),
            match res {
                Ok(h) => {
                    &&& old(r).remaining() >= 28
                    &&& h == spec_header_at(old(r).data_seq(), old(r).pos())
                    &&& final(r).pos() == old(r).pos() + 28
                },
                Err(e) => {
                    &&& old(r).remaining() < 28
                    &&& e == DecodeError::TruncatedInput
                },
            },
    {
        let star0 = match read_i32(r) {
            Ok(v) => v,
            Err(e) => return Err(e),
        };
        let star1 = match read_i32(r) {
            Ok(v) => v,
            Err(e) => return Err(e),
        };
        let starn = match read_i32(r) {
            Ok(v) => v,
            Err(e) => return Err(e),
        };
        let stnum = match read_i32(r) {
            Ok(v) => v,
            Err(e) => return Err(e),
        };
        let mprop = match read_i32(r) {
            Ok(v) => v != 0,
            Err(e) => return Err(e),
        };
        let nmag = match read_i32(r) {
            Ok(v) => v,
            Err(e) => return Err(e),
        };
        let nbent = match read_i32(r) {
            Ok(v) => v,
            Err(e) => return Err(e),
        };
        Ok(RawHeader { star0, star1, starn, stnum, mprop, nmag, nbent })
    }
}

/// A canonical in-memory star: the catalog number validated and
/// narrowed to an integer, every other field carried over from disk.
/// Coordinates and proper motions are IEEE-754 bit patterns; the
/// magnitude is in hundredths, so the true magnitude is `mag / 100`.
#[derive(Clone, Copy, Debug, PartialEq, Eq)]
pub struct Entry {
    /// Catalog number.
    pub xno: u32,
    /// B1950 right ascension in radians (binary64 bit pattern).
    pub sra0: u64,
    /// B1950 declination in radians (binary64 bit pattern).
    pub sdec0: u64,
    /// Two-character spectral type.
    pub is: [char; 2],
    /// V magnitude in hundredths.
    pub mag: i16,
    /// Right ascension proper motion in radians/year (binary32 bit pattern).
    pub xrpm: u32,
    /// Declination proper motion in radians/year (binary32 bit pattern).
    pub xdpm: u32,
}

/// An entry in a YBSC file.
pub type Star = Entry;

/// One 32-byte record exactly as it sits on disk: the catalog number
/// still a binary32 bit pattern, nothing validated yet.
#[derive(Clone, Copy, Debug, PartialEq, Eq)]
pub struct RawEntry {
    /// Catalog number (binary32 bit pattern).
    pub xno: u32,
    /// B1950 right ascension in radians (binary64 bit pattern).
    pub sra0: u64,
    /// B1950 declination in radians (binary64 bit pattern).
    pub sdec0: u64,
    /// Two-character spectral type.
    pub is: [char; 2],
    /// V magnitude in hundredths.
    pub mag: i16,
    /// Right ascension proper motion in radians/year (binary32 bit pattern).
    pub xrpm: u32,
    /// Declination proper motion in radians/year (binary32 bit pattern).
    pub xdpm: u32,
}

/// The record encoded by the 32 bytes of `d` at offset `p`.
pub open spec fn spec_raw_entry_at(d: Seq<u8>, p: int) -> RawEntry {
    RawEntry {
        xno: le_u32_at(d, p),
        sra0: le_u64_at(d, p + 4),
        sdec0: le_u64_at(d, p + 12),
        is: [d[p + 20] as char, d[p + 21] as char],
        mag: le_i16_at(d, p + 22),
        xrpm: le_u32_at(d, p + 24),
        xdpm: le_u32_at(d, p + 28),
    }
}

impl RawEntry {
    /// An occupied catalog slot: at least one spectral-type character
    /// is not a space. Blank slots are dropped, not decoded.
    pub open spec fn spec_valid(self) -> bool {
        self.is[0] != ' ' || self.is[1] != ' '
    }

    /// True iff this record is an occupied slot.
    pub fn valid(&self) -> (b: bool)
        ensures
            b == self.spec_valid(),
    {
        self.is[0] != ' ' || self.is[1] != ' '
    }

    /// Reads one 32-byte record in its fixed field order.
    pub fn read_from(r: &mut ByteReader) -> (res: Result<RawEntry, DecodeError>)
        requires
            old(r).wf(),
        ensures
            final(r).wf(),
            final(r).data_seq() == old(r).data_seq(),
            match res {
                Ok(e) => {
                    &&& old(r).remaining() >= 32
                    &&& e == spec_raw_entry_at(old(r).data_seq(), old(r).pos())
                    &&& final(r).pos() == old(r).pos() + 32
                },
                Err(e) => {
                    &&& old(r).remaining() < 32
                    &&& e == DecodeError::TruncatedInput
                },
            },
    {
        let xno = match read_u32(r) {
            Ok(v) => v,
            Err(e) => return Err(e),
        };
        let sra0 = match read_u64(r) {
            Ok(v) => v,
            Err(e) => return Err(e),
        };
        let sdec0 = match read_u64(r) {
            Ok(v) => v,
            Err(e) => return Err(e),
        };
        let is0 = match read_char(r) {
            Ok(v) => v,
            Err(e) => return Err(e),
        };
        let is1 = match read_char(r) {
            Ok(v) => v,
            Err(e) => return Err(e),
        };
        let is = [is0, is1];
        let mag = match read_i16(r) {
            Ok(v) => v,
            Err(e) => return Err(e),
        };
        let xrpm = match read_u32(r) {
            Ok(v) => v,
            Err(e) => return Err(e),
        };
        let xdpm = match read_u32(r) {
            Ok(v) => v,
            Err(e) => return Err(e),
        };
        Ok(RawEntry { xno, sra0, sdec0, is, mag, xrpm, xdpm })
    }
}

/// The star a raw record converts to, once its catalog number is
/// admitted: the number truncated to an integer, the rest unchanged.
pub open spec fn spec_star_of(raw: RawEntry) -> Star {
    Star {
        xno: trunc_to_u32(raw.xno),
        sra0: raw.sra0,
        sdec0: raw.sdec0,
        is: raw.is,
        mag: raw.mag,
        xrpm: raw.xrpm,
        xdpm: raw.xdpm,
    }
}

/// Raw-to-canonical conversion: succeeds exactly when the catalog
/// number's bit pattern encodes a finite, non-negative value.
pub open spec fn spec_convert(raw: RawEntry) -> Result<Star, DecodeError> {
    if is_valid_star_number(raw.xno) {
        Ok(spec_star_of(raw))
    } else {
        Err(DecodeError::InvalidStarNumber { bits: raw.xno })
    }
}

impl Entry {
    /// An occupied catalog slot: at least one spectral-type character
    /// is not a space. Every decoded star satisfies this.
    pub open spec fn spec_valid(self) -> bool {
        self.is[0] != ' ' || self.is[1] != ' '
    }

    /// True iff this star marks an occupied slot.
    pub fn valid(&self) -> (b: bool)
        ensures
            b == self.spec_valid(),
    {
        self.is[0] != ' ' || self.is[1] != ' '
    }

    /// Converts a raw record into a canonical star, rejecting a
    /// catalog number that is not finite and non-negative.
    pub fn try_from(raw: RawEntry) -> (res: Result<Star, DecodeError>)
        ensures
            res == spec_convert(raw),
    {
        if !star_number_valid(raw.xno) {
            return Err(DecodeError::InvalidStarNumber { bits: raw.xno });
        }
        let xno: u32 = trunc_f32_bits_to_u32(raw.xno);
        Ok(Star {
            xno,
            sra0: raw.sra0,
            sdec0: raw.sdec0,
            is: raw.is,
            mag: raw.mag,
            xrpm: raw.xrpm,
            xdpm: raw.xdpm,
        })
    }
}

/// Equinox-epoch identifier.
#[derive(Clone, Copy, Debug, PartialEq, Eq, Structural)]
pub enum Equinox {
    /// Besselian.
    B1950,
    /// Julian.
    J2000,
}

/// The kind of star IDs a file contains.
#[derive(Clone, Copy, Debug, PartialEq, Eq, Structural)]
pub enum IdType {
    /// No star identification numbers are present in this file.
    NoId,
    /// See a separate catalog file for the identification numbers.
    SeeCatalog,
    /// This file includes star ID numbers.
    Included,
}

/// The equinox a header's signed record count encodes: negative means
/// Julian, non-negative Besselian.
pub open spec fn spec_equinox_of(starn: i32) -> Equinox {
    if starn < 0 {
        Equinox::J2000
    } else {
        Equinox::B1950
    }
}

/// The record count a header announces: the absolute value of the
/// signed count, whatever its sign.
pub open spec fn spec_record_count(starn: i32) -> int {
    if starn < 0 {
        -(starn as int)
    } else {
        starn as int
    }
}

/// The ID type a header's code field maps to; only {0, 1, 2} are
/// meaningful, anything else fails the whole decode.
pub open spec fn spec_id_type_of(stnum: i32) -> Result<IdType, DecodeError> {
    if stnum == 0 {
        Ok(IdType::NoId)
    } else if stnum == 1 {
        Ok(IdType::SeeCatalog)
    } else if stnum == 2 {
        Ok(IdType::Included)
    } else {
        Err(DecodeError::InvalidStnum { stnum })
    }
}

impl IdType {
    /// Maps a header's code field to the ID type it names.
    pub fn try_from(stnum: i32) -> (res: Result<IdType, DecodeError>)
        ensures
            res == spec_id_type_of(stnum),
    {
        match stnum {
            0 => Ok(IdType::NoId),
            1 => Ok(IdType::SeeCatalog),
            2 => Ok(IdType::Included),
            _ => Err(DecodeError::InvalidStnum { stnum }),
        }
    }
}

/// The stars the first `k` records at `base` decode to, in disk
/// order: blank slots dropped, the rest converted, the first failure
/// (a short record or a bad catalog number) aborting the whole run.
pub open spec fn spec_records(d: Seq<u8>, base: int, k: int) -> Result<Seq<Star>, DecodeError>
    decreases k,
{
    if k <= 0 {
        Ok(Seq::empty())
    } else {
        match spec_records(d, base, k - 1) {
            Err(e) => Err(e),
            Ok(s) => {
                let off = base + 32 * (k - 1);
                if off + 32 > d.len() {
                    Err(DecodeError::TruncatedInput)
                } else {
                    let e = spec_raw_entry_at(d, off);
                    if !e.spec_valid() {
                        Ok(s)
                    } else {
                        match spec_convert(e) {
                            Err(er) => Err(er),
                            Ok(st) => Ok(s.push(st)),
                        }
                    }
                }
            },
        }
    }
}

/// A decoded catalog, as mathematics: what `Ybsc::read_from` returns,
/// seen through the types' views.
#[verifier::ext_equal]
pub ghost struct CatalogModel {
    pub equinox: Equinox,
    pub id_type: IdType,
    pub have_proper_motion: bool,
    pub stars: Seq<Star>,
}

/// The catalog the bytes of `d` at offset `p` decode to, or the exact
/// error the decoder reports: a short header, a bytes-per-entry field
/// other than 32, an ID-type code outside {0, 1, 2} — each checked in
/// that order — and otherwise whatever the record run produces.
pub open spec fn spec_decode(d: Seq<u8>, p: int) -> Result<CatalogModel, DecodeError> {
    if p + 28 > d.len() {
        Err(DecodeError::TruncatedInput)
    } else {
        let h = spec_header_at(d, p);
        if h.nbent != 32 {
            Err(DecodeError::BadEntrySize { nbent: h.nbent })
        } else {
            match spec_id_type_of(h.stnum) {
                Err(e) => Err(e),
                Ok(id_type) => match spec_records(d, p + 28, spec_record_count(h.starn)) {
                    Err(e) => Err(e),
                    Ok(stars) => Ok(CatalogModel {
                        equinox: spec_equinox_of(h.starn),
                        id_type,
                        have_proper_motion: h.mprop,
                        stars,
                    }),
                },
            }
        }
    }
}

/// Memory representation of a Yale Bright Star Catalog (YBSC) file.
#[derive(Clone, Debug)]
pub struct Ybsc {
    /// Which equinox-epoch the data refers to.
    pub equinox: Equinox,
    /// Which kind of star ID, if any, this catalog contains.
    pub id_type: IdType,
    /// If the proper motion values are valid.
    pub have_proper_motion: bool,
    /// The entries of the catalog.
    pub stars: Vec<Star>,
}

impl View for Ybsc {
    type V = CatalogModel;

    open spec fn view(&self) -> CatalogModel {
        CatalogModel {
            equinox: self.equinox,
            id_type: self.id_type,
            have_proper_motion: self.have_proper_motion,
            stars: self.stars@,
        }
    }
}

/// Once a record run has failed, every longer run fails the same way.
proof fn lemma_records_err_persists(d: Seq<u8>, base: int, j: int, k: int)
    requires
        0 <= j <= k,
        spec_records(d, base, j) is Err,
    ensures
        spec_records(d, base, k) == spec_records(d, base, j),
    decreases k - j,
{
    if j < k {
        lemma_records_err_persists(d, base, j, k - 1);
    }
}

impl Ybsc {
    /// Decode a catalog file from a reader.
    ///
    /// The result is exactly what the bytes at the cursor say —
    /// `spec_decode` — and on success the decoder has consumed the
    /// 28-byte header plus 32 bytes per announced record, nothing
    /// more. A header rejected for its entry size or its ID-type code
    /// leaves the cursor right after the header, before any record.
    pub fn read_from(r: &mut ByteReader) -> (res: Result<Ybsc, DecodeError>)
        requires
            old(r).wf(),
        ensures
            final(r).wf(),
            final(r).data_seq() == old(r).data_seq(),
            match res {
                Ok(c) => {
                    &&& spec_decode(old(r).data_seq(), old(r).pos())
                        == Ok::<CatalogModel, DecodeError>(c@)
                    &&& c.equinox == spec_equinox_of(
                        spec_header_at(old(r).data_seq(), old(r).pos()).starn,
                    )
                    &&& final(r).pos() == old(r).pos() + 28 + 32 * spec_record_count(
                        spec_header_at(old(r).data_seq(), old(r).pos()).starn,
                    )
                },
                Err(e) => {
                    &&& spec_decode(old(r).data_seq(), old(r).pos())
                        == Err::<CatalogModel, DecodeError>(e)
                    &&& (e is BadEntrySize || e is InvalidStnum) ==> final(r).pos() == old(
                        r,
                    ).pos() + 28
                },
            },
    {
        let ghost d: Seq<u8> = r.data_seq();
        let ghost p0: int = r.pos();
        let hdr = match RawHeader::read_from(r) {
            Ok(h) => h,
            Err(e) => return Err(e),
        };
        if hdr.nbent != 32 {
            return Err(DecodeError::BadEntrySize { nbent: hdr.nbent });
        }
        let (equinox, nstar): (Equinox, usize) = if hdr.starn < 0 {
            (Equinox::J2000, (-(hdr.starn as i64)) as usize)
        } else {
            (Equinox::B1950, hdr.starn as usize)
        };
        let have_proper_motion = hdr.mprop;
        let id_type = match IdType::try_from(hdr.stnum) {
            Ok(t) => t,
            Err(e) => return Err(e),
        };
        let mut stars: Vec<Star> = Vec::new();
        let mut i: usize = 0;
        while i < nstar
            invariant
                d == old(r).data_seq(),
                p0 == old(r).pos(),
                r.wf(),
                r.data_seq() == d,
                r.pos() == p0 + 28 + 32 * i,
                i <= nstar,
                nstar == spec_record_count(hdr.starn),
                p0 + 28 <= d.len(),
                hdr == spec_header_at(d, p0),
                hdr.nbent == 32,
                spec_id_type_of(hdr.stnum) == Ok::<IdType, DecodeError>(id_type),
                equinox == spec_equinox_of(hdr.starn),
                spec_records(d, p0 + 28, i as int) == Ok::<Seq<Star>, DecodeError>(stars@),
            decreases nstar - i,
        {
            let entry = match RawEntry::read_from(r) {
                Ok(e) => e,
                Err(e) => {
                    proof {
                        lemma_records_err_persists(d, p0 + 28, i + 1, nstar as int);
                    }
                    return Err(e);
                },
            };
            if entry.valid() {
                match Entry::try_from(entry) {
                    Ok(star) => stars.push(star),
                    Err(e) => {
                        proof {
                            lemma_records_err_persists(d, p0 + 28, i + 1, nstar as int);
                        }
                        return Err(e);
                    },
                }
            }
            i = i + 1;
        }
        let catalog = Ybsc { equinox, id_type, have_proper_motion, stars };
        Ok(catalog)
    }
}

/// How many of the first `k` records at `base` are blank slots
/// (spectral type two spaces).
pub open spec fn spec_blank_count(d: Seq<u8>, base: int, k: int) -> int
    decreases k,
{
    if k <= 0 {
        0
    } else {
        spec_blank_count(d, base, k - 1) + if spec_raw_entry_at(
            d,
            base + 32 * (k - 1),
        ).spec_valid() {
            0int
        } else {
            1int
        }
    }
}

/// The first `k` raw records at `base`, in disk order, regardless of
/// validity or conversion.
pub open spec fn spec_raw_seq(d: Seq<u8>, base: int, k: int) -> Seq<RawEntry>
    decreases k,
{
    if k <= 0 {
        Seq::empty()
    } else {
        spec_raw_seq(d, base, k - 1).push(spec_raw_entry_at(d, base + 32 * (k - 1)))
    }
}

/// Law: a record run that succeeds yields no blank slot — every star
/// it returns has a spectral type other than two spaces, whatever the
/// record's other fields held.
pub proof fn lemma_records_no_blanks(d: Seq<u8>, base: int, k: int)
    requires
        spec_records(d, base, k) is Ok,
    ensures
        forall|i: int|
            0 <= i < spec_records(d, base, k)->Ok_0.len() ==> (#[trigger] spec_records(
                d,
                base,
                k,
            )->Ok_0[i]).spec_valid(),
    decreases k,
{
    if k > 0 {
        lemma_records_no_blanks(d, base, k - 1);
    }
}

/// Law: a record run that succeeds returns exactly the announced
/// count minus the blank slots among those records.
pub proof fn lemma_records_len(d: Seq<u8>, base: int, k: int)
    requires
        0 <= k,
        spec_records(d, base, k) is Ok,
    ensures
        spec_records(d, base, k)->Ok_0.len() == k - spec_blank_count(d, base, k),
    decreases k,
{
    if k > 0 {
        lemma_records_len(d, base, k - 1);
    }
}

/// Law: a record run that succeeds returns the on-disk records in
/// their on-disk order, restricted to the occupied slots and passed
/// through the raw-to-canonical conversion — nothing reordered,
/// nothing else dropped, nothing added.
pub proof fn lemma_records_order(d: Seq<u8>, base: int, k: int)
    requires
        spec_records(d, base, k) is Ok,
    ensures
        spec_records(d, base, k)->Ok_0 == spec_raw_seq(d, base, k).filter(
            |e: RawEntry| e.spec_valid(),
        ).map_values(|e: RawEntry| spec_star_of(e)),
    decreases k,
{
    reveal(Seq::filter);
    let pred = |e: RawEntry| e.spec_valid();
    let conv = |e: RawEntry| spec_star_of(e);
    if k <= 0 {
        assert(spec_raw_seq(d, base, k).filter(pred).map_values(conv) =~= Seq::empty());
    } else {
        lemma_records_order(d, base, k - 1);
        let prev = spec_raw_seq(d, base, k - 1);
        let e = spec_raw_entry_at(d, base + 32 * (k - 1));
        let cur = spec_raw_seq(d, base, k);
        assert(cur.drop_last() =~= prev);
        assert(cur.last() == e);
        if pred(e) {
            assert(cur.filter(pred) == prev.filter(pred).push(e));
            assert(prev.filter(pred).push(e).map_values(conv) =~= prev.filter(pred).map_values(
                conv,
            ).push(conv(e)));
        } else {
            assert(cur.filter(pred) == prev.filter(pred));
        }
    }
}

/// Law: a decoded catalog never holds a blank slot; records whose
/// spectral type is two spaces are filtered out, whatever their other
/// fields.
pub proof fn lemma_decode_no_blanks(d: Seq<u8>, p: int)
    requires
        spec_decode(d, p) is Ok,
    ensures
        forall|i: int|
            0 <= i < spec_decode(d, p)->Ok_0.stars.len() ==> (#[trigger] spec_decode(
                d,
                p,
            )->Ok_0.stars[i]).spec_valid(),
{
    let h = spec_header_at(d, p);
    lemma_records_no_blanks(d, p + 28, spec_record_count(h.starn));
}

/// Law: a decoded catalog holds exactly the announced record count
/// minus its blank slots, and its stars are the on-disk records in
/// on-disk order, restricted to the occupied slots and converted.
pub proof fn lemma_decode_stars(d: Seq<u8>, p: int)
    requires
        spec_decode(d, p) is Ok,
    ensures
        spec_decode(d, p)->Ok_0.stars.len() == spec_record_count(spec_header_at(d, p).starn)
            - spec_blank_count(d, p + 28, spec_record_count(spec_header_at(d, p).starn)),
        spec_decode(d, p)->Ok_0.stars == spec_raw_seq(
            d,
            p + 28,
            spec_record_count(spec_header_at(d, p).starn),
        ).filter(|e: RawEntry| e.spec_valid()).map_values(|e: RawEntry| spec_star_of(e)),
{
    let h = spec_header_at(d, p);
    lemma_records_len(d, p + 28, spec_record_count(h.starn));
    lemma_records_order(d, p + 28, spec_record_count(h.starn));
}

} // verus!
