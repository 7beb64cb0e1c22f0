//! Supplemental Enhancement Information (SEI) messages.
//!
//! An SEI RBSP is a sequence of messages, each carrying a `payload_type` and
//! a `payload_size` in a continuation-byte code — every `0xFF` byte adds 255
//! and continues the field, the first other byte adds its own value and ends
//! it — followed by exactly `payload_size` payload bytes. The sequence ends
//! when the RBSP is exhausted at a message boundary.

use vstd::prelude::*;

verus! {

use crate::error::Error;

/// The known SEI payload-type codes (Annex D of the standard), with
/// `Reserved` for every other code.
#[derive(Debug, Clone, Copy, PartialEq, Eq, Structural)]
pub enum SeiMessageKind {
    BufferingPeriod,
    PicTiming,
    PanScanRect,
    FillerPayload,
    UserDataRegisteredItuTT35,
    UserDataUnregistered,
    RecoveryPoint,
    DecRefPicMarkingRepetition,
    SparePic,
    SceneInfo,
    SubSeqInfo,
    SubSeqLayerCharacteristics,
    SubSeqCharacteristics,
    FullFrameFreeze,
    FullFrameFreezeRelease,
    FullFrameSnapshot,
    ProgressiveRefinementSegmentStart,
    ProgressiveRefinementSegmentEnd,
    MotionConstrainedSliceGroupSet,
    FilmGrainCharacteristics,
    DeblockingFilterDisplayPreference,
    StereoVideoInfo,
    PostFilterHint,
    ToneMappingInfo,
    ScalabilityInfo,
    SubPicScalableLayer,
    NonRequiredLayerRep,
    PriorityLayerInfo,
    LayersNotPresent,
    LayerDependencyChange,
    ScalableNesting,
    BaseLayerTemporalHrd,
    QualityLayerIntegrityCheck,
    RedundantPicProperty,
    Tl0DepRepIndex,
    TlSwitchingPoint,
    ParallelDecodingInfo,
    MvcScalableNesting,
    ViewScalabilityInfo,
    MultiviewSceneInfo,
    MultiviewAcquisitionInfo,
    NonRequiredViewComponent,
    ViewDependencyChange,
    OperationPointsNotPresent,
    BaseViewTemporalHrd,
    FramePackingArrangement,
    MultiviewViewPosition,
    DisplayOrientation,
    MvcdScalableNesting,
    MvcdViewScalabilityInfo,
    DepthRepresentationInfo,
    ThreeDimensionalReferenceDisplaysInfo,
    DepthTiming,
    DepthSamplingInfo,
    ConstrainedDepthParameterSetIdentifier,
    GreenMetadata,
    MasteringDisplayColourVolume,
    ColourRemappingInfo,
    AlternativeTransferCharacteristics,
    AlternativeDepthInfo,
    Reserved(u32),
}

/// The classification of a `payload_type` code; total over all codes.
pub open spec fn sei_kind_of_value(v: u32) -> SeiMessageKind {
    if v == 0 {
        SeiMessageKind::BufferingPeriod
    } else if v == 1 {
        SeiMessageKind::PicTiming
    } else if v == 2 {
        SeiMessageKind::PanScanRect
    } else if v == 3 {
        SeiMessageKind::FillerPayload
    } else if v == 4 {
        SeiMessageKind::UserDataRegisteredItuTT35
    } else if v == 5 {
        SeiMessageKind::UserDataUnregistered
    } else if v == 6 {
        SeiMessageKind::RecoveryPoint
    } else if v == 7 {
        SeiMessageKind::DecRefPicMarkingRepetition
    } else if v == 8 {
        SeiMessageKind::SparePic
    } else if v == 9 {
        SeiMessageKind::SceneInfo
    } else if v == 10 {
        SeiMessageKind::SubSeqInfo
    } else if v == 11 {
        SeiMessageKind::SubSeqLayerCharacteristics
    } else if v == 12 {
        SeiMessageKind::SubSeqCharacteristics
    } else if v == 13 {
        SeiMessageKind::FullFrameFreeze
    } else if v == 14 {
        SeiMessageKind::FullFrameFreezeRelease
    } else if v == 15 {
        SeiMessageKind::FullFrameSnapshot
    } else if v == 16 {
        SeiMessageKind::ProgressiveRefinementSegmentStart
    } else if v == 17 {
        SeiMessageKind::ProgressiveRefinementSegmentEnd
    } else if v == 18 {
        SeiMessageKind::MotionConstrainedSliceGroupSet
    } else if v == 19 {
        SeiMessageKind::FilmGrainCharacteristics
    } else if v == 20 {
        SeiMessageKind::DeblockingFilterDisplayPreference
    } else if v == 21 {
        SeiMessageKind::StereoVideoInfo
    } else if v == 22 {
        SeiMessageKind::PostFilterHint
    } else if v == 23 {
        SeiMessageKind::ToneMappingInfo
    } else if v == 24 {
        SeiMessageKind::ScalabilityInfo
    } else if v == 25 {
        SeiMessageKind::SubPicScalableLayer
    } else if v == 26 {
        SeiMessageKind::NonRequiredLayerRep
    } else if v == 27 {
        SeiMessageKind::PriorityLayerInfo
    } else if v == 28 {
        SeiMessageKind::LayersNotPresent
    } else if v == 29 {
        SeiMessageKind::LayerDependencyChange
    } else if v == 30 {
        SeiMessageKind::ScalableNesting
    } else if v == 31 {
        SeiMessageKind::BaseLayerTemporalHrd
    } else if v == 32 {
        SeiMessageKind::QualityLayerIntegrityCheck
    } else if v == 33 {
        SeiMessageKind::RedundantPicProperty
    } else if v == 34 {
        SeiMessageKind::Tl0DepRepIndex
    } else if v == 35 {
        SeiMessageKind::TlSwitchingPoint
    } else if v == 36 {
        SeiMessageKind::ParallelDecodingInfo
    } else if v == 37 {
        SeiMessageKind::MvcScalableNesting
    } else if v == 38 {
        SeiMessageKind::ViewScalabilityInfo
    } else if v == 39 {
        SeiMessageKind::MultiviewSceneInfo
    } else if v == 40 {
        SeiMessageKind::MultiviewAcquisitionInfo
    } else if v == 41 {
        SeiMessageKind::NonRequiredViewComponent
    } else if v == 42 {
        SeiMessageKind::ViewDependencyChange
    } else if v == 43 {
        SeiMessageKind::OperationPointsNotPresent
    } else if v == 44 {
        SeiMessageKind::BaseViewTemporalHrd
    } else if v == 45 {
        SeiMessageKind::FramePackingArrangement
    } else if v == 46 {
        SeiMessageKind::MultiviewViewPosition
    } else if v == 47 {
        SeiMessageKind::DisplayOrientation
    } else if v == 48 {
        SeiMessageKind::MvcdScalableNesting
    } else if v == 49 {
        SeiMessageKind::MvcdViewScalabilityInfo
    } else if v == 50 {
        SeiMessageKind::DepthRepresentationInfo
    } else if v == 51 {
        SeiMessageKind::ThreeDimensionalReferenceDisplaysInfo
    } else if v == 52 {
        SeiMessageKind::DepthTiming
    } else if v == 53 {
        SeiMessageKind::DepthSamplingInfo
    } else if v == 54 {
        SeiMessageKind::ConstrainedDepthParameterSetIdentifier
    } else if v == 56 {
        SeiMessageKind::GreenMetadata
    } else if v == 137 {
        SeiMessageKind::MasteringDisplayColourVolume
    } else if v == 142 {
        SeiMessageKind::ColourRemappingInfo
    } else if v == 147 {
        SeiMessageKind::AlternativeTransferCharacteristics
    } else if v == 181 {
        SeiMessageKind::AlternativeDepthInfo
    } else {
        SeiMessageKind::Reserved(v)
    }
}

/// The `payload_type` code of a classification.
pub open spec fn sei_value_of_kind(k: SeiMessageKind) -> u32 {
    match k {
        SeiMessageKind::BufferingPeriod => 0,
        SeiMessageKind::PicTiming => 1,
        SeiMessageKind::PanScanRect => 2,
        SeiMessageKind::FillerPayload => 3,
        SeiMessageKind::UserDataRegisteredItuTT35 => 4,
        SeiMessageKind::UserDataUnregistered => 5,
        SeiMessageKind::RecoveryPoint => 6,
        SeiMessageKind::DecRefPicMarkingRepetition => 7,
        SeiMessageKind::SparePic => 8,
        SeiMessageKind::SceneInfo => 9,
        SeiMessageKind::SubSeqInfo => 10,
        SeiMessageKind::SubSeqLayerCharacteristics => 11,
        SeiMessageKind::SubSeqCharacteristics => 12,
        SeiMessageKind::FullFrameFreeze => 13,
        SeiMessageKind::FullFrameFreezeRelease => 14,
        SeiMessageKind::FullFrameSnapshot => 15,
        SeiMessageKind::ProgressiveRefinementSegmentStart => 16,
        SeiMessageKind::ProgressiveRefinementSegmentEnd => 17,
        SeiMessageKind::MotionConstrainedSliceGroupSet => 18,
        SeiMessageKind::FilmGrainCharacteristics => 19,
        SeiMessageKind::DeblockingFilterDisplayPreference => 20,
        SeiMessageKind::StereoVideoInfo => 21,
        SeiMessageKind::PostFilterHint => 22,
        SeiMessageKind::ToneMappingInfo => 23,
        SeiMessageKind::ScalabilityInfo => 24,
        SeiMessageKind::SubPicScalableLayer => 25,
        SeiMessageKind::NonRequiredLayerRep => 26,
        SeiMessageKind::PriorityLayerInfo => 27,
        SeiMessageKind::LayersNotPresent => 28,
        SeiMessageKind::LayerDependencyChange => 29,
        SeiMessageKind::ScalableNesting => 30,
        SeiMessageKind::BaseLayerTemporalHrd => 31,
        SeiMessageKind::QualityLayerIntegrityCheck => 32,
        SeiMessageKind::RedundantPicProperty => 33,
        SeiMessageKind::Tl0DepRepIndex => 34,
        SeiMessageKind::TlSwitchingPoint => 35,
        SeiMessageKind::ParallelDecodingInfo => 36,
        SeiMessageKind::MvcScalableNesting => 37,
        SeiMessageKind::ViewScalabilityInfo => 38,
        SeiMessageKind::MultiviewSceneInfo => 39,
        SeiMessageKind::MultiviewAcquisitionInfo => 40,
        SeiMessageKind::NonRequiredViewComponent => 41,
        SeiMessageKind::ViewDependencyChange => 42,
        SeiMessageKind::OperationPointsNotPresent => 43,
        SeiMessageKind::BaseViewTemporalHrd => 44,
        SeiMessageKind::FramePackingArrangement => 45,
        SeiMessageKind::MultiviewViewPosition => 46,
        SeiMessageKind::DisplayOrientation => 47,
        SeiMessageKind::MvcdScalableNesting => 48,
        SeiMessageKind::MvcdViewScalabilityInfo => 49,
        SeiMessageKind::DepthRepresentationInfo => 50,
        SeiMessageKind::ThreeDimensionalReferenceDisplaysInfo => 51,
        SeiMessageKind::DepthTiming => 52,
        SeiMessageKind::DepthSamplingInfo => 53,
        SeiMessageKind::ConstrainedDepthParameterSetIdentifier => 54,
        SeiMessageKind::GreenMetadata => 56,
        SeiMessageKind::MasteringDisplayColourVolume => 137,
        SeiMessageKind::ColourRemappingInfo => 142,
        SeiMessageKind::AlternativeTransferCharacteristics => 147,
        SeiMessageKind::AlternativeDepthInfo => 181,
        SeiMessageKind::Reserved(n) => n,
    }
}

/// A `Reserved` classification only ever carries a code the table does not
/// recognize.
pub open spec fn sei_kind_wf(k: SeiMessageKind) -> bool {
    match k {
        SeiMessageKind::Reserved(n) => !(n <= 54 || n == 56 || n == 137 || n == 142 || n == 147
            || n == 181),
        _ => true,
    }
}

impl SeiMessageKind {
    /// Classify a `payload_type` code; every code is classified.
    pub fn from_value(value: u32) -> (r: SeiMessageKind)
        ensures
            r == sei_kind_of_value(value),
    {
        if value == 0 {
            SeiMessageKind::BufferingPeriod
        } else if value == 1 {
            SeiMessageKind::PicTiming
        } else if value == 2 {
            SeiMessageKind::PanScanRect
        } else if value == 3 {
            SeiMessageKind::FillerPayload
        } else if value == 4 {
            SeiMessageKind::UserDataRegisteredItuTT35
        } else if value == 5 {
            SeiMessageKind::UserDataUnregistered
        } else if value == 6 {
            SeiMessageKind::RecoveryPoint
        } else if value == 7 {
            SeiMessageKind::DecRefPicMarkingRepetition
        } else if value == 8 {
            SeiMessageKind::SparePic
        } else if value == 9 {
            SeiMessageKind::SceneInfo
        } else if value == 10 {
            SeiMessageKind::SubSeqInfo
        } else if value == 11 {
            SeiMessageKind::SubSeqLayerCharacteristics
        } else if value == 12 {
            SeiMessageKind::SubSeqCharacteristics
        } else if value == 13 {
            SeiMessageKind::FullFrameFreeze
        } else if value == 14 {
            SeiMessageKind::FullFrameFreezeRelease
        } else if value == 15 {
            SeiMessageKind::FullFrameSnapshot
        } else if value == 16 {
            SeiMessageKind::ProgressiveRefinementSegmentStart
        } else if value == 17 {
            SeiMessageKind::ProgressiveRefinementSegmentEnd
        } else if value == 18 {
            SeiMessageKind::MotionConstrainedSliceGroupSet
        } else if value == 19 {
            SeiMessageKind::FilmGrainCharacteristics
        } else if value == 20 {
            SeiMessageKind::DeblockingFilterDisplayPreference
        } else if value == 21 {
            SeiMessageKind::StereoVideoInfo
        } else if value == 22 {
            SeiMessageKind::PostFilterHint
        } else if value == 23 {
            SeiMessageKind::ToneMappingInfo
        } else if value == 24 {
            SeiMessageKind::ScalabilityInfo
        } else if value == 25 {
            SeiMessageKind::SubPicScalableLayer
        } else if value == 26 {
            SeiMessageKind::NonRequiredLayerRep
        } else if value == 27 {
            SeiMessageKind::PriorityLayerInfo
        } else if value == 28 {
            SeiMessageKind::LayersNotPresent
        } else if value == 29 {
            SeiMessageKind::LayerDependencyChange
        } else if value == 30 {
            SeiMessageKind::ScalableNesting
        } else if value == 31 {
            SeiMessageKind::BaseLayerTemporalHrd
        } else if value == 32 {
            SeiMessageKind::QualityLayerIntegrityCheck
        } else if value == 33 {
            SeiMessageKind::RedundantPicProperty
        } else if value == 34 {
            SeiMessageKind::Tl0DepRepIndex
        } else if value == 35 {
            SeiMessageKind::TlSwitchingPoint
        } else if value == 36 {
            SeiMessageKind::ParallelDecodingInfo
        } else if value == 37 {
            SeiMessageKind::MvcScalableNesting
        } else if value == 38 {
            SeiMessageKind::ViewScalabilityInfo
        } else if value == 39 {
            SeiMessageKind::MultiviewSceneInfo
        } else if value == 40 {
            SeiMessageKind::MultiviewAcquisitionInfo
        } else if value == 41 {
            SeiMessageKind::NonRequiredViewComponent
        } else if value == 42 {
            SeiMessageKind::ViewDependencyChange
        } else if value == 43 {
            SeiMessageKind::OperationPointsNotPresent
        } else if value == 44 {
            SeiMessageKind::BaseViewTemporalHrd
        } else if value == 45 {
            SeiMessageKind::FramePackingArrangement
        } else if value == 46 {
            SeiMessageKind::MultiviewViewPosition
        } else if value == 47 {
            SeiMessageKind::DisplayOrientation
        } else if value == 48 {
            SeiMessageKind::MvcdScalableNesting
        } else if value == 49 {
            SeiMessageKind::MvcdViewScalabilityInfo
        } else if value == 50 {
            SeiMessageKind::DepthRepresentationInfo
        } else if value == 51 {
            SeiMessageKind::ThreeDimensionalReferenceDisplaysInfo
        } else if value == 52 {
            SeiMessageKind::DepthTiming
        } else if value == 53 {
            SeiMessageKind::DepthSamplingInfo
        } else if value == 54 {
            SeiMessageKind::ConstrainedDepthParameterSetIdentifier
        } else if value == 56 {
            SeiMessageKind::GreenMetadata
        } else if value == 137 {
            SeiMessageKind::MasteringDisplayColourVolume
        } else if value == 142 {
            SeiMessageKind::ColourRemappingInfo
        } else if value == 147 {
            SeiMessageKind::AlternativeTransferCharacteristics
        } else if value == 181 {
            SeiMessageKind::AlternativeDepthInfo
        } else {
            SeiMessageKind::Reserved(value)
        }
    }

    /// The `payload_type` code of this classification.
    pub fn to_value(self) -> (r: u32)
        ensures
            r == sei_value_of_kind(self),
    {
        match self {
            SeiMessageKind::BufferingPeriod => 0,
            SeiMessageKind::PicTiming => 1,
            SeiMessageKind::PanScanRect => 2,
            SeiMessageKind::FillerPayload => 3,
            SeiMessageKind::UserDataRegisteredItuTT35 => 4,
            SeiMessageKind::UserDataUnregistered => 5,
            SeiMessageKind::RecoveryPoint => 6,
            SeiMessageKind::DecRefPicMarkingRepetition => 7,
            SeiMessageKind::SparePic => 8,
            SeiMessageKind::SceneInfo => 9,
            SeiMessageKind::SubSeqInfo => 10,
            SeiMessageKind::SubSeqLayerCharacteristics => 11,
            SeiMessageKind::SubSeqCharacteristics => 12,
            SeiMessageKind::FullFrameFreeze => 13,
            SeiMessageKind::FullFrameFreezeRelease => 14,
            SeiMessageKind::FullFrameSnapshot => 15,
            SeiMessageKind::ProgressiveRefinementSegmentStart => 16,
            SeiMessageKind::ProgressiveRefinementSegmentEnd => 17,
            SeiMessageKind::MotionConstrainedSliceGroupSet => 18,
            SeiMessageKind::FilmGrainCharacteristics => 19,
            SeiMessageKind::DeblockingFilterDisplayPreference => 20,
            SeiMessageKind::StereoVideoInfo => 21,
            SeiMessageKind::PostFilterHint => 22,
            SeiMessageKind::ToneMappingInfo => 23,
            SeiMessageKind::ScalabilityInfo => 24,
            SeiMessageKind::SubPicScalableLayer => 25,
            SeiMessageKind::NonRequiredLayerRep => 26,
            SeiMessageKind::PriorityLayerInfo => 27,
            SeiMessageKind::LayersNotPresent => 28,
            SeiMessageKind::LayerDependencyChange => 29,
            SeiMessageKind::ScalableNesting => 30,
            SeiMessageKind::BaseLayerTemporalHrd => 31,
            SeiMessageKind::QualityLayerIntegrityCheck => 32,
            SeiMessageKind::RedundantPicProperty => 33,
            SeiMessageKind::Tl0DepRepIndex => 34,
            SeiMessageKind::TlSwitchingPoint => 35,
            SeiMessageKind::ParallelDecodingInfo => 36,
            SeiMessageKind::MvcScalableNesting => 37,
            SeiMessageKind::ViewScalabilityInfo => 38,
            SeiMessageKind::MultiviewSceneInfo => 39,
            SeiMessageKind::MultiviewAcquisitionInfo => 40,
            SeiMessageKind::NonRequiredViewComponent => 41,
            SeiMessageKind::ViewDependencyChange => 42,
            SeiMessageKind::OperationPointsNotPresent => 43,
            SeiMessageKind::BaseViewTemporalHrd => 44,
            SeiMessageKind::FramePackingArrangement => 45,
            SeiMessageKind::MultiviewViewPosition => 46,
            SeiMessageKind::DisplayOrientation => 47,
            SeiMessageKind::MvcdScalableNesting => 48,
            SeiMessageKind::MvcdViewScalabilityInfo => 49,
            SeiMessageKind::DepthRepresentationInfo => 50,
            SeiMessageKind::ThreeDimensionalReferenceDisplaysInfo => 51,
            SeiMessageKind::DepthTiming => 52,
            SeiMessageKind::DepthSamplingInfo => 53,
            SeiMessageKind::ConstrainedDepthParameterSetIdentifier => 54,
            SeiMessageKind::GreenMetadata => 56,
            SeiMessageKind::MasteringDisplayColourVolume => 137,
            SeiMessageKind::ColourRemappingInfo => 142,
            SeiMessageKind::AlternativeTransferCharacteristics => 147,
            SeiMessageKind::AlternativeDepthInfo => 181,
            SeiMessageKind::Reserved(n) => n,
        }
    }
}

/// Kind round-trip: every `payload_type` code classifies to a kind whose code
/// is the original, recognized or not.
pub proof fn lemma_sei_kind_round_trip(v: u32)
    ensures
        sei_value_of_kind(sei_kind_of_value(v)) == v,
{
}

/// Kind round-trip, the other way: a well-formed kind is recovered from its
/// own code.
pub proof fn lemma_sei_kind_value_round_trip(k: SeiMessageKind)
    requires
        sei_kind_wf(k),
    ensures
        sei_kind_of_value(sei_value_of_kind(k)) == k,
{
}

/// One decoded SEI message.
#[derive(Debug, Clone)]
pub struct SeiAnyMessage {
    pub kind: SeiMessageKind,
    /// The exact payload byte length.
    pub size: usize,
    /// The payload bytes; always `size` of them.
    pub body: Vec<u8>,
}

impl SeiAnyMessage {
    pub fn kind(&self) -> (r: SeiMessageKind)
        ensures
            r == self.kind,
    {
        self.kind
    }

    pub fn len(&self) -> (r: usize)
        ensures
            r == self.size,
    {
        self.size
    }

    pub fn as_bytes(&self) -> (r: &Vec<u8>)
        ensures
            r@ == self.body@,
    {
        &self.body
    }
}

/// The mathematical shape of one SEI message: its raw field values.
pub struct SeiMessageModel {
    pub ptype: nat,
    pub psize: nat,
    pub body: Seq<u8>,
}

/// The decoder state between two bytes of an SEI RBSP.
pub enum SeiPhase {
    /// Reading the continuation bytes of `payload_type`; `acc` is the sum of
    /// the bytes consumed so far.
    Type { acc: nat },
    /// Reading `payload_size` after a complete `payload_type`.
    Size { ptype: nat, acc: nat },
    /// Collecting the `psize` payload bytes.
    Body { ptype: nat, psize: nat, got: Seq<u8> },
}

/// The outcome of decoding an SEI RBSP.
pub enum SeiParseResult {
    /// The RBSP was exhausted at a message boundary.
    Messages(Seq<SeiMessageModel>),
    /// The RBSP ended inside a message.
    Truncated,
    /// A type or size field summed past the supported 32-bit ceiling.
    Oversize,
}

pub open spec fn sei_phase_rank(phase: SeiPhase) -> int {
    match phase {
        SeiPhase::Body { .. } => 1,
        _ => 0,
    }
}

/// Run the SEI decoder over `bytes` from the given state, one byte per step.
pub open spec fn sei_run(
    bytes: Seq<u8>,
    phase: SeiPhase,
    done: Seq<SeiMessageModel>,
) -> SeiParseResult
    decreases bytes.len(), sei_phase_rank(phase),
{
    match phase {
        SeiPhase::Body { ptype, psize, got } => {
            if got.len() >= psize {
                sei_run(
                    bytes,
                    SeiPhase::Type { acc: 0 },
                    done.push(SeiMessageModel { ptype, psize, body: got }),
                )
            } else if bytes.len() == 0 {
                SeiParseResult::Truncated
            } else {
                sei_run(
                    bytes.skip(1),
                    SeiPhase::Body { ptype, psize, got: got.push(bytes[0]) },
                    done,
                )
            }
        },
        SeiPhase::Type { acc } => {
            if bytes.len() == 0 {
                if acc == 0 {
                    SeiParseResult::Messages(done)
                } else {
                    SeiParseResult::Truncated
                }
            } else if bytes[0] == 0xFF {
                if acc + 255 > u32::MAX {
                    SeiParseResult::Oversize
                } else {
                    sei_run(bytes.skip(1), SeiPhase::Type { acc: acc + 255 }, done)
                }
            } else {
                if acc + bytes[0] > u32::MAX {
                    SeiParseResult::Oversize
                } else {
                    sei_run(bytes.skip(1), SeiPhase::Size { ptype: (acc + bytes[0]) as nat, acc: 0 }, done)
                }
            }
        },
        SeiPhase::Size { ptype, acc } => {
            if bytes.len() == 0 {
                SeiParseResult::Truncated
            } else if bytes[0] == 0xFF {
                if acc + 255 > u32::MAX {
                    SeiParseResult::Oversize
                } else {
                    sei_run(bytes.skip(1), SeiPhase::Size { ptype, acc: acc + 255 }, done)
                }
            } else {
                if acc + bytes[0] > u32::MAX {
                    SeiParseResult::Oversize
                } else {
                    sei_run(
                        bytes.skip(1),
                        SeiPhase::Body { ptype, psize: (acc + bytes[0]) as nat, got: Seq::empty() },
                        done,
                    )
                }
            }
        },
    }
}

/// The raw field values of a decoded message.
pub open spec fn sei_message_model(m: SeiAnyMessage) -> SeiMessageModel {
    SeiMessageModel {
        ptype: sei_value_of_kind(m.kind) as nat,
        psize: m.size as nat,
        body: m.body@,
    }
}

pub open spec fn sei_messages_model(ms: Seq<SeiAnyMessage>) -> Seq<SeiMessageModel> {
    ms.map_values(|m: SeiAnyMessage| sei_message_model(m))
}

/// A decoded SEI RBSP: the sequence of its messages.
#[derive(Debug, Clone)]
pub struct SupplementalEnhancementInformation {
    pub messages: Vec<SeiAnyMessage>,
}

impl SupplementalEnhancementInformation {
    pub fn messages(&self) -> (r: &Vec<SeiAnyMessage>)
        ensures
            r@ == self.messages@,
    {
        &self.messages
    }

    /// Decode the sequence of SEI messages that fills `data`. An RBSP that
    /// ends inside a message is truncated; a type or size field summed past
    /// the 32-bit ceiling is malformed.
    pub fn parse(data: &Vec<u8>) -> (r: Result<SupplementalEnhancementInformation, Error>)
        ensures
            sei_run(data@, SeiPhase::Type { acc: 0 }, Seq::empty()) matches
                SeiParseResult::Messages(model) ==> (r matches Ok(s) && sei_messages_model(
                s.messages@,
            ) == model),
            sei_run(data@, SeiPhase::Type { acc: 0 }, Seq::empty())
                == SeiParseResult::Truncated ==> r == Err::<
                SupplementalEnhancementInformation,
                Error,
            >(Error::UnexpectedEndOfData),
            sei_run(data@, SeiPhase::Type { acc: 0 }, Seq::empty())
                == SeiParseResult::Oversize ==> r == Err::<
                SupplementalEnhancementInformation,
                Error,
            >(Error::MalformedInput),
    {
        let ghost goal = sei_run(data@, SeiPhase::Type { acc: 0 }, Seq::empty());
        let mut messages: Vec<SeiAnyMessage> = Vec::new();
        let mut i: usize = 0;
        // The decoder phase: 0 while reading `payload_type`, 1 while reading
        // `payload_size`, 2 while collecting the body.
        let mut phase: u8 = 0;
        let mut acc: u64 = 0;
        let mut ptype: u32 = 0;
        let mut psize: usize = 0;
        let mut got: Vec<u8> = Vec::new();
        proof {
            assert(sei_messages_model(messages@) =~= Seq::<SeiMessageModel>::empty());
            assert(data@.skip(0) =~= data@);
        }
        loop
            invariant_except_break
                goal == sei_run(data@, SeiPhase::Type { acc: 0 }, Seq::<SeiMessageModel>::empty()),
                i <= data@.len(),
                phase <= 2,
                acc <= u32::MAX,
                phase == 2 ==> got@.len() <= psize,
                goal == sei_run(
                    data@.skip(i as int),
                    exec_phase(phase, acc, ptype, psize, got@),
                    sei_messages_model(messages@),
                ),
            ensures
                goal == sei_run(data@, SeiPhase::Type { acc: 0 }, Seq::<SeiMessageModel>::empty()),
                i == data@.len(),
                phase <= 2,
                !(phase == 2 && got@.len() >= psize),
                phase == 2 ==> got@.len() <= psize,
                goal == sei_run(
                    Seq::empty(),
                    exec_phase(phase, acc, ptype, psize, got@),
                    sei_messages_model(messages@),
                ),
            decreases
                    data@.len() - i,
                    (if phase == 2 && got@.len() >= psize {
                        1int
                    } else {
                        0int
                    }),
        {
            let ghost rem = data@.skip(i as int);
            if phase == 2 && got.len() >= psize {
                let ghost msgs0 = messages@;
                let kind = SeiMessageKind::from_value(ptype);
                let body = got;
                let message = SeiAnyMessage { kind, size: psize, body };
                messages.push(message);
                got = Vec::new();
                phase = 0;
                acc = 0;
                proof {
                    lemma_sei_kind_round_trip(ptype);
                    assert(sei_messages_model(messages@) =~= sei_messages_model(msgs0).push(
                        sei_message_model(message),
                    ));
                }
                continue ;
            }
            if i == data.len() {
                proof {
                    assert(data@.skip(i as int) =~= Seq::<u8>::empty());
                }
                break ;
            }
            let b = data[i];
            i = i + 1;
            proof {
                assert(rem.skip(1) =~= data@.skip(i as int));
                assert(rem[0] == data@[i - 1]);
            }
            if phase == 0 {
                acc = acc + (if b == 0xFF {
                    255
                } else {
                    b as u64
                });
                if acc > 0xFFFF_FFFF {
                    return Err(Error::MalformedInput);
                }
                if b != 0xFF {
                    ptype = acc as u32;
                    acc = 0;
                    phase = 1;
                }
            } else if phase == 1 {
                acc = acc + (if b == 0xFF {
                    255
                } else {
                    b as u64
                });
                if acc > 0xFFFF_FFFF {
                    return Err(Error::MalformedInput);
                }
                if b != 0xFF {
                    psize = acc as usize;
                    acc = 0;
                    got = Vec::new();
                    phase = 2;
                }
            } else {
                got.push(b);
            }
        }
        if phase == 0 && acc == 0 {
            Ok(SupplementalEnhancementInformation { messages })
        } else {
            Err(Error::UnexpectedEndOfData)
        }
    }
}

/// The decoder state that the executable fields stand for.
pub open spec fn exec_phase(phase: u8, acc: u64, ptype: u32, psize: usize, got: Seq<u8>) -> SeiPhase {
    if phase == 0 {
        SeiPhase::Type { acc: acc as nat }
    } else if phase == 1 {
        SeiPhase::Size { ptype: ptype as nat, acc: acc as nat }
    } else {
        SeiPhase::Body { ptype: ptype as nat, psize: psize as nat, got }
    }
}

} // verus!
