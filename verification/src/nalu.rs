//! NAL unit headers and units.
//!
//! The one-byte NAL unit header packs `forbidden_zero_bit` (1 bit, always 0),
//! `nal_ref_idc` (2 bits) and `nal_unit_type` (5 bits). Decoding validates
//! the forbidden bit and the cross-field legality rules; every 5-bit
//! `nal_unit_type` value is classified, with named variants for the defined
//! types and `Reserved` / `Unspecified` carrying their raw value.

use vstd::prelude::*;

verus! {

use crate::error::Error;
use crate::pps::PictureParameterSet;
use crate::rbsp::DebugRbSp;
use crate::sei::SupplementalEnhancementInformation;
use crate::sps::SequenceParameterSet;

/// The classification of the 5-bit `nal_unit_type` field.
#[derive(Debug, Clone, Copy, PartialEq, Eq, Structural)]
pub enum NaluKind {
    Unspecified(u8),
    Reserved(u8),
    /// Coded slice of a non-IDR picture
    CodedSliceNonIdr,
    /// Coded slice data partition A
    CodedSliceDataPartitionA,
    /// Coded slice data partition B
    CodedSliceDataPartitionB,
    /// Coded slice data partition C
    CodedSliceDataPartitionC,
    /// Coded slice of an IDR picture
    CodedSliceIdr,
    /// Supplemental enhancement information (SEI)
    SupplementalEnhancementInformation,
    /// Sequence parameter set (SPS)
    SequenceParameterSet,
    /// Picture parameter set (PPS)
    PictureParameterSet,
    /// Access unit delimiter
    AccessUnitDelimiter,
    /// End of sequence
    EndOfSequence,
    /// End of stream
    EndOfStream,
    /// Filler data
    FillerData,
    /// Sequence parameter set extension
    SequenceParameterSetExtension,
    /// Prefix NAL unit
    PrefixNALUnit,
    /// Subset sequence parameter set
    SubsetSequenceParameterSet,
    /// Depth parameter set
    DepthParameterSet,
    /// Coded slice of an auxiliary coded picture without partitioning
    CodedSliceOfAnAuxiliaryCodedPictureWithoutPartitioning,
    /// Coded slice extension
    CodedSliceExtension,
    /// Coded slice extension for a depth view component or a 3D-AVC texture
    /// view component
    CodedSliceExtensionForADepthViewComponentOrA3DAVCTextureViewComponent,
}

/// The classification of a 5-bit `nal_unit_type` value; total, with values
/// above 31 classified as `Unspecified` for the spec's sake only (the
/// executable decoder rejects them).
pub open spec fn kind_of_value(v: u8) -> NaluKind {
    if v == 0 {
        NaluKind::Unspecified(0)
    } else if v == 1 {
        NaluKind::CodedSliceNonIdr
    } else if v == 2 {
        NaluKind::CodedSliceDataPartitionA
    } else if v == 3 {
        NaluKind::CodedSliceDataPartitionB
    } else if v == 4 {
        NaluKind::CodedSliceDataPartitionC
    } else if v == 5 {
        NaluKind::CodedSliceIdr
    } else if v == 6 {
        NaluKind::SupplementalEnhancementInformation
    } else if v == 7 {
        NaluKind::SequenceParameterSet
    } else if v == 8 {
        NaluKind::PictureParameterSet
    } else if v == 9 {
        NaluKind::AccessUnitDelimiter
    } else if v == 10 {
        NaluKind::EndOfSequence
    } else if v == 11 {
        NaluKind::EndOfStream
    } else if v == 12 {
        NaluKind::FillerData
    } else if v == 13 {
        NaluKind::SequenceParameterSetExtension
    } else if v == 14 {
        NaluKind::PrefixNALUnit
    } else if v == 15 {
        NaluKind::SubsetSequenceParameterSet
    } else if v == 16 {
        NaluKind::DepthParameterSet
    } else if v == 17 || v == 18 {
        NaluKind::Reserved(v)
    } else if v == 19 {
        NaluKind::CodedSliceOfAnAuxiliaryCodedPictureWithoutPartitioning
    } else if v == 20 {
        NaluKind::CodedSliceExtension
    } else if v == 21 {
        NaluKind::CodedSliceExtensionForADepthViewComponentOrA3DAVCTextureViewComponent
    } else if v == 22 || v == 23 {
        NaluKind::Reserved(v)
    } else {
        NaluKind::Unspecified(v)
    }
}

/// The 5-bit value of a classification.
pub open spec fn value_of_kind(k: NaluKind) -> u8 {
    match k {
        NaluKind::Unspecified(n) => n,
        NaluKind::Reserved(n) => n,
        NaluKind::CodedSliceNonIdr => 1,
        NaluKind::CodedSliceDataPartitionA => 2,
        NaluKind::CodedSliceDataPartitionB => 3,
        NaluKind::CodedSliceDataPartitionC => 4,
        NaluKind::CodedSliceIdr => 5,
        NaluKind::SupplementalEnhancementInformation => 6,
        NaluKind::SequenceParameterSet => 7,
        NaluKind::PictureParameterSet => 8,
        NaluKind::AccessUnitDelimiter => 9,
        NaluKind::EndOfSequence => 10,
        NaluKind::EndOfStream => 11,
        NaluKind::FillerData => 12,
        NaluKind::SequenceParameterSetExtension => 13,
        NaluKind::PrefixNALUnit => 14,
        NaluKind::SubsetSequenceParameterSet => 15,
        NaluKind::DepthParameterSet => 16,
        NaluKind::CodedSliceOfAnAuxiliaryCodedPictureWithoutPartitioning => 19,
        NaluKind::CodedSliceExtension => 20,
        NaluKind::CodedSliceExtensionForADepthViewComponentOrA3DAVCTextureViewComponent => 21,
    }
}

/// A `Reserved` or `Unspecified` classification only ever carries a value of
/// its own range.
pub open spec fn kind_wf(k: NaluKind) -> bool {
    match k {
        NaluKind::Unspecified(n) => n == 0 || (24 <= n && n <= 31),
        NaluKind::Reserved(n) => n == 17 || n == 18 || n == 22 || n == 23,
        _ => true,
    }
}

impl NaluKind {
    /// Classify a 5-bit `nal_unit_type` value; every value up to 31 is
    /// classified, a wider value is rejected.
    pub fn from_value(value: u8) -> (r: Result<NaluKind, Error>)
        ensures
            value <= 31 ==> r == Ok::<NaluKind, Error>(kind_of_value(value)),
            value > 31 ==> r == Err::<NaluKind, Error>(Error::MalformedInput),
    {
        if value == 0 {
            Ok(NaluKind::Unspecified(0))
        } else if value == 1 {
            Ok(NaluKind::CodedSliceNonIdr)
        } else if value == 2 {
            Ok(NaluKind::CodedSliceDataPartitionA)
        } else if value == 3 {
            Ok(NaluKind::CodedSliceDataPartitionB)
        } else if value == 4 {
            Ok(NaluKind::CodedSliceDataPartitionC)
        } else if value == 5 {
            Ok(NaluKind::CodedSliceIdr)
        } else if value == 6 {
            Ok(NaluKind::SupplementalEnhancementInformation)
        } else if value == 7 {
            Ok(NaluKind::SequenceParameterSet)
        } else if value == 8 {
            Ok(NaluKind::PictureParameterSet)
        } else if value == 9 {
            Ok(NaluKind::AccessUnitDelimiter)
        } else if value == 10 {
            Ok(NaluKind::EndOfSequence)
        } else if value == 11 {
            Ok(NaluKind::EndOfStream)
        } else if value == 12 {
            Ok(NaluKind::FillerData)
        } else if value == 13 {
            Ok(NaluKind::SequenceParameterSetExtension)
        } else if value == 14 {
            Ok(NaluKind::PrefixNALUnit)
        } else if value == 15 {
            Ok(NaluKind::SubsetSequenceParameterSet)
        } else if value == 16 {
            Ok(NaluKind::DepthParameterSet)
        } else if value == 17 || value == 18 {
            Ok(NaluKind::Reserved(value))
        } else if value == 19 {
            Ok(NaluKind::CodedSliceOfAnAuxiliaryCodedPictureWithoutPartitioning)
        } else if value == 20 {
            Ok(NaluKind::CodedSliceExtension)
        } else if value == 21 {
            Ok(NaluKind::CodedSliceExtensionForADepthViewComponentOrA3DAVCTextureViewComponent)
        } else if value == 22 || value == 23 {
            Ok(NaluKind::Reserved(value))
        } else if value <= 31 {
            Ok(NaluKind::Unspecified(value))
        } else {
            Err(Error::MalformedInput)
        }
    }

    /// The 5-bit value of this classification.
    pub fn to_value(self) -> (r: u8)
        ensures
            r == value_of_kind(self),
    {
        match self {
            NaluKind::Unspecified(n) => n,
            NaluKind::Reserved(n) => n,
            NaluKind::CodedSliceNonIdr => 1,
            NaluKind::CodedSliceDataPartitionA => 2,
            NaluKind::CodedSliceDataPartitionB => 3,
            NaluKind::CodedSliceDataPartitionC => 4,
            NaluKind::CodedSliceIdr => 5,
            NaluKind::SupplementalEnhancementInformation => 6,
            NaluKind::SequenceParameterSet => 7,
            NaluKind::PictureParameterSet => 8,
            NaluKind::AccessUnitDelimiter => 9,
            NaluKind::EndOfSequence => 10,
            NaluKind::EndOfStream => 11,
            NaluKind::FillerData => 12,
            NaluKind::SequenceParameterSetExtension => 13,
            NaluKind::PrefixNALUnit => 14,
            NaluKind::SubsetSequenceParameterSet => 15,
            NaluKind::DepthParameterSet => 16,
            NaluKind::CodedSliceOfAnAuxiliaryCodedPictureWithoutPartitioning => 19,
            NaluKind::CodedSliceExtension => 20,
            NaluKind::CodedSliceExtensionForADepthViewComponentOrA3DAVCTextureViewComponent => 21,
        }
    }
}

/// Kind round-trip: every 5-bit value classifies to a kind whose value is the
/// original.
pub proof fn lemma_nalu_kind_round_trip(v: u8)
    requires
        v <= 31,
    ensures
        value_of_kind(kind_of_value(v)) == v,
        kind_wf(kind_of_value(v)),
{
}

/// Kind round-trip, the other way: a well-formed kind is recovered from its
/// own value.
pub proof fn lemma_nalu_kind_value_round_trip(k: NaluKind)
    requires
        kind_wf(k),
    ensures
        value_of_kind(k) <= 31,
        kind_of_value(value_of_kind(k)) == k,
{
}

/// The 2-bit `nal_ref_idc` field: the reference importance of a unit, from
/// disposable to highest.
#[derive(Debug, Clone, Copy, PartialEq, Eq, Structural)]
#[allow(non_camel_case_types)]
pub enum NaluRefIdc {
    DISPOSABLE,
    LOW,
    HIGH,
    HIGHEST,
}

/// The reference importance of a 2-bit value; total, with values above 3
/// mapped to `DISPOSABLE` for the spec's sake only (the executable decoder
/// rejects them).
pub open spec fn ref_idc_of_value(v: u8) -> NaluRefIdc {
    if v == 1 {
        NaluRefIdc::LOW
    } else if v == 2 {
        NaluRefIdc::HIGH
    } else if v == 3 {
        NaluRefIdc::HIGHEST
    } else {
        NaluRefIdc::DISPOSABLE
    }
}

/// The 2-bit value of a reference importance.
pub open spec fn value_of_ref_idc(r: NaluRefIdc) -> u8 {
    match r {
        NaluRefIdc::DISPOSABLE => 0,
        NaluRefIdc::LOW => 1,
        NaluRefIdc::HIGH => 2,
        NaluRefIdc::HIGHEST => 3,
    }
}

impl NaluRefIdc {
    /// Map a 2-bit `nal_ref_idc` value; a wider value is rejected.
    pub fn from_value(value: u8) -> (r: Result<NaluRefIdc, Error>)
        ensures
            value <= 3 ==> r == Ok::<NaluRefIdc, Error>(ref_idc_of_value(value)),
            value > 3 ==> r == Err::<NaluRefIdc, Error>(Error::MalformedInput),
    {
        match value {
            0 => Ok(NaluRefIdc::DISPOSABLE),
            1 => Ok(NaluRefIdc::LOW),
            2 => Ok(NaluRefIdc::HIGH),
            3 => Ok(NaluRefIdc::HIGHEST),
            _ => Err(Error::MalformedInput),
        }
    }

    /// The 2-bit value of this reference importance.
    pub fn to_value(self) -> (r: u8)
        ensures
            r == value_of_ref_idc(self),
    {
        match self {
            NaluRefIdc::DISPOSABLE => 0,
            NaluRefIdc::LOW => 1,
            NaluRefIdc::HIGH => 2,
            NaluRefIdc::HIGHEST => 3,
        }
    }
}

/// The cross-field legality rule of the NAL unit header semantics: an IDR
/// slice must not be disposable, and SEI, access-unit-delimiter,
/// end-of-sequence, end-of-stream and filler units must be disposable.
pub open spec fn header_legal(ref_idc: NaluRefIdc, kind: NaluKind) -> bool {
    &&& (kind == NaluKind::CodedSliceIdr ==> ref_idc != NaluRefIdc::DISPOSABLE)
    &&& ((kind == NaluKind::SupplementalEnhancementInformation || kind
        == NaluKind::AccessUnitDelimiter || kind == NaluKind::EndOfSequence || kind
        == NaluKind::EndOfStream || kind == NaluKind::FillerData) ==> ref_idc
        == NaluRefIdc::DISPOSABLE)
}

/// A decoded NAL unit header. The `forbidden_zero_bit` is validated on decode
/// and not stored: it is always zero.
#[derive(Debug, Clone, Copy, PartialEq, Eq, Structural)]
pub struct NaluHeader {
    pub nal_ref_idc: NaluRefIdc,
    pub nal_unit_type: NaluKind,
}

impl NaluHeader {
    /// Construct a header, enforcing the cross-field legality rule; a
    /// violation is a construction failure, not a panic.
    pub fn new(nal_ref_idc: NaluRefIdc, nalu_kind: NaluKind) -> (r: Result<NaluHeader, Error>)
        ensures
            header_legal(nal_ref_idc, nalu_kind) ==> r == Ok::<NaluHeader, Error>(
                NaluHeader { nal_ref_idc, nal_unit_type: nalu_kind },
            ),
            !header_legal(nal_ref_idc, nalu_kind) ==> r == Err::<NaluHeader, Error>(
                Error::MalformedInput,
            ),
    {
        match nalu_kind {
            NaluKind::CodedSliceIdr => {
                if nal_ref_idc == NaluRefIdc::DISPOSABLE {
                    return Err(Error::MalformedInput);
                }
            },
            NaluKind::SupplementalEnhancementInformation
            | NaluKind::AccessUnitDelimiter
            | NaluKind::EndOfSequence
            | NaluKind::EndOfStream
            | NaluKind::FillerData => {
                if nal_ref_idc != NaluRefIdc::DISPOSABLE {
                    return Err(Error::MalformedInput);
                }
            },
            _ => {},
        }
        Ok(NaluHeader { nal_ref_idc, nal_unit_type: nalu_kind })
    }

    /// The forbidden_zero_bit, which a decoded header always has clear.
    pub fn forbidden_zero_bit(&self) -> (r: u8)
        ensures
            r == 0,
    {
        0
    }

    pub fn nal_ref_idc(&self) -> (r: NaluRefIdc)
        ensures
            r == self.nal_ref_idc,
    {
        self.nal_ref_idc
    }

    pub fn nal_unit_type(&self) -> (r: NaluKind)
        ensures
            r == self.nal_unit_type,
    {
        self.nal_unit_type
    }

    /// Decode a header byte: `forbidden_zero_bit` is the top bit and must be
    /// clear, `nal_ref_idc` the next two bits, `nal_unit_type` the low five.
    pub fn from_byte(value: u8) -> (r: Result<NaluHeader, Error>)
        ensures
            value >= 128 ==> r == Err::<NaluHeader, Error>(Error::MalformedInput),
            value < 128 ==> r == (if header_legal(
                ref_idc_of_value((value / 32) % 4),
                kind_of_value(value % 32),
            ) {
                Ok::<NaluHeader, Error>(
                    NaluHeader {
                        nal_ref_idc: ref_idc_of_value((value / 32) % 4),
                        nal_unit_type: kind_of_value(value % 32),
                    },
                )
            } else {
                Err::<NaluHeader, Error>(Error::MalformedInput)
            }),
    {
        let forbidden_zero_bit = value / 128;
        let ref_idc_bits = (value / 32) % 4;
        let unit_type_bits = value % 32;
        if forbidden_zero_bit != 0 {
            return Err(Error::MalformedInput);
        }
        let ref_idc = match NaluRefIdc::from_value(ref_idc_bits) {
            Ok(r) => r,
            Err(e) => {
                return Err(e);
            },
        };
        let kind = match NaluKind::from_value(unit_type_bits) {
            Ok(k) => k,
            Err(e) => {
                return Err(e);
            },
        };
        NaluHeader::new(ref_idc, kind)
    }

    /// Encode the header back to its byte; the forbidden_zero_bit is always
    /// emitted as zero.
    pub fn to_byte(self) -> (r: u8)
        requires
            kind_wf(self.nal_unit_type),
        ensures
            r == value_of_ref_idc(self.nal_ref_idc) * 32 + value_of_kind(self.nal_unit_type),
            r < 128,
    {
        let ref_idc: u8 = self.nal_ref_idc.to_value();
        let unit_type: u8 = self.nal_unit_type.to_value();
        proof {
            lemma_nalu_kind_value_round_trip(self.nal_unit_type);
        }
        ref_idc * 32 + unit_type
    }
}

/// Header byte round-trip: a well-formed, legal header is recovered from its
/// own encoding.
pub proof fn lemma_header_byte_round_trip(h: NaluHeader)
    requires
        kind_wf(h.nal_unit_type),
        header_legal(h.nal_ref_idc, h.nal_unit_type),
    ensures
        ({
            let b = value_of_ref_idc(h.nal_ref_idc) * 32 + value_of_kind(h.nal_unit_type);
            b < 128 && ref_idc_of_value(((b / 32) % 4) as u8) == h.nal_ref_idc && kind_of_value(
                (b % 32) as u8,
            ) == h.nal_unit_type
        }),
{
    lemma_nalu_kind_value_round_trip(h.nal_unit_type);
}

/// A NAL unit payload: the raw de-escaped body bytes, or a structured
/// payload once a kind-specific decoder has been invoked.
#[derive(Debug, Clone)]
pub enum NaluPayload {
    Raw(DebugRbSp),
    Sei(SupplementalEnhancementInformation),
    Sps(SequenceParameterSet),
    Pps(PictureParameterSet),
}

/// A framed NAL unit: its decoded header and its payload.
#[derive(Debug, Clone)]
pub struct Nalu {
    pub header: NaluHeader,
    pub payload: NaluPayload,
}

/// What decoding a de-escaped unit body must return: the header decoded from
/// the first byte and the remaining bytes as the raw payload, or the error.
pub open spec fn nalu_result_matches(bytes: Seq<u8>, r: Result<Nalu, Error>) -> bool {
    if bytes.len() == 0 || bytes[0] >= 128 {
        r == Err::<Nalu, Error>(Error::MalformedInput)
    } else {
        let ri = ref_idc_of_value((bytes[0] / 32) % 4);
        let k = kind_of_value(bytes[0] % 32);
        if header_legal(ri, k) {
            r matches Ok(n) && n.header == (NaluHeader { nal_ref_idc: ri, nal_unit_type: k }) && (
            n.payload matches NaluPayload::Raw(d) && d.bytes@ == bytes.skip(1))
        } else {
            r == Err::<Nalu, Error>(Error::MalformedInput)
        }
    }
}

impl Nalu {
    pub fn new(header: NaluHeader, payload: NaluPayload) -> (r: Nalu)
        ensures
            r.header == header,
            r.payload == payload,
    {
        Nalu { header, payload }
    }

    pub fn ref_idc(&self) -> (r: NaluRefIdc)
        ensures
            r == self.header.nal_ref_idc,
    {
        self.header.nal_ref_idc
    }

    pub fn kind(&self) -> (r: NaluKind)
        ensures
            r == self.header.nal_unit_type,
    {
        self.header.nal_unit_type
    }

    pub fn payload(&self) -> (r: &NaluPayload)
        ensures
            r == self.payload,
    {
        &self.payload
    }

    pub fn payload_mut(&mut self) -> (r: &mut NaluPayload)
        ensures
            *r == old(self).payload,
            final(self).payload == *final(r),
            final(self).header == old(self).header,
    {
        &mut self.payload
    }

    /// Decode a de-escaped unit body: the first byte is the header, the rest
    /// become the raw payload. An empty body is malformed.
    pub fn from_bytes(bytes: &Vec<u8>) -> (r: Result<Nalu, Error>)
        ensures
            nalu_result_matches(bytes@, r),
    {
        if bytes.len() == 0 {
            return Err(Error::MalformedInput);
        }
        let header = match NaluHeader::from_byte(bytes[0]) {
            Ok(h) => h,
            Err(e) => {
                return Err(e);
            },
        };
        let mut payload: Vec<u8> = Vec::new();
        let mut i: usize = 1;
        proof {
            assert(payload@ =~= bytes@.subrange(1, 1));
        }
        while i < bytes.len()
            invariant
                1 <= i <= bytes@.len(),
                payload@ == bytes@.subrange(1, i as int),
            decreases bytes@.len() - i,
        {
            payload.push(bytes[i]);
            proof {
                assert(bytes@.subrange(1, i as int).push(bytes@[i as int]) =~= bytes@.subrange(
                    1,
                    i + 1,
                ));
            }
            i = i + 1;
        }
        proof {
            assert(bytes@.subrange(1, bytes@.len() as int) =~= bytes@.skip(1));
        }
        Ok(Nalu { header, payload: NaluPayload::Raw(DebugRbSp { bytes: payload }) })
    }
}

} // verus!
