//! The outer shell of the sequence parameter set: profile and level
//! enumerations, the constraint-set flags, and the SPS record whose optional
//! fields are present only under the syntax-conditional guards of the H.264
//! syntax tables. Field-level SPS decoding is outside the core and left to
//! consumers of the raw payload.

use vstd::prelude::*;

verus! {

/// H.264 profiles (A.2 of the standard).
#[derive(Debug, Clone, Copy, PartialEq, Eq, Structural)]
pub enum Profile {
    Baseline,
    Main,
    Extended,
    High,
    ProgressiveHigh,
    ConstrainedHigh,
    High10,
    ProgressiveHigh10,
    High422,
    High444Predictive,
    High10Intra,
    High422Intra,
    High444Intra,
    CAVLC444Intra,
}

/// H.264 levels (A.3 of the standard).
#[derive(Debug, Clone, Copy, PartialEq, Eq, Structural)]
pub enum Level {
    L1,
    L1B,
    L1_1,
    L1_2,
    L1_3,
    L2,
    L2_1,
    L2_2,
    L3,
    L3_1,
    L3_2,
    L4,
    L4_1,
    L4_2,
    L5,
    L5_1,
    L5_2,
    L6,
    L6_1,
    L6_2,
}

impl Level {
    /// The level's conventional decimal notation.
    pub open spec fn text_spec(self) -> Seq<char> {
        match self {
            Level::L1 => "1"@,
            Level::L1B => "1b"@,
            Level::L1_1 => "1.1"@,
            Level::L1_2 => "1.2"@,
            Level::L1_3 => "1.3"@,
            Level::L2 => "2"@,
            Level::L2_1 => "2.1"@,
            Level::L2_2 => "2.2"@,
            Level::L3 => "3"@,
            Level::L3_1 => "3.1"@,
            Level::L3_2 => "3.2"@,
            Level::L4 => "4"@,
            Level::L4_1 => "4.1"@,
            Level::L4_2 => "4.2"@,
            Level::L5 => "5"@,
            Level::L5_1 => "5.1"@,
            Level::L5_2 => "5.2"@,
            Level::L6 => "6"@,
            Level::L6_1 => "6.1"@,
            Level::L6_2 => "6.2"@,
        }
    }

    /// The level's conventional decimal notation.
    pub fn text(&self) -> (r: &'static str)
        ensures
            r@ == self.text_spec(),
    {
        match self {
            Level::L1 => "1",
            Level::L1B => "1b",
            Level::L1_1 => "1.1",
            Level::L1_2 => "1.2",
            Level::L1_3 => "1.3",
            Level::L2 => "2",
            Level::L2_1 => "2.1",
            Level::L2_2 => "2.2",
            Level::L3 => "3",
            Level::L3_1 => "3.1",
            Level::L3_2 => "3.2",
            Level::L4 => "4",
            Level::L4_1 => "4.1",
            Level::L4_2 => "4.2",
            Level::L5 => "5",
            Level::L5_1 => "5.1",
            Level::L5_2 => "5.2",
            Level::L6 => "6",
            Level::L6_1 => "6.1",
            Level::L6_2 => "6.2",
        }
    }
}

/// The constraint-set flags of an SPS, packed from the most significant bit
/// down in their syntax order: `constraint_set0_flag` is the top bit.
#[derive(Debug, Clone, Copy, PartialEq, Eq, Structural)]
pub struct SequenceParameterSetFlag(pub u8);

impl SequenceParameterSetFlag {
    pub fn from_value(value: u8) -> (r: SequenceParameterSetFlag)
        ensures
            r.0 == value,
    {
        SequenceParameterSetFlag(value)
    }

    pub fn to_value(self) -> (r: u8)
        ensures
            r == self.0,
    {
        self.0
    }

    /// Whether `constraint_set0_flag` is set.
    pub fn set0(&self) -> (r: bool)
        ensures
            r == ((self.0 / 128) % 2 == 1),
    {
        (self.0 / 128) % 2 == 1
    }

    /// Whether `constraint_set1_flag` is set.
    pub fn set1(&self) -> (r: bool)
        ensures
            r == ((self.0 / 64) % 2 == 1),
    {
        (self.0 / 64) % 2 == 1
    }

    /// Whether `constraint_set2_flag` is set.
    pub fn set2(&self) -> (r: bool)
        ensures
            r == ((self.0 / 32) % 2 == 1),
    {
        (self.0 / 32) % 2 == 1
    }

    /// Whether `constraint_set3_flag` is set.
    pub fn set3(&self) -> (r: bool)
        ensures
            r == ((self.0 / 16) % 2 == 1),
    {
        (self.0 / 16) % 2 == 1
    }

    /// Whether `constraint_set4_flag` is set.
    pub fn set4(&self) -> (r: bool)
        ensures
            r == ((self.0 / 8) % 2 == 1),
    {
        (self.0 / 8) % 2 == 1
    }

    /// Whether `constraint_set5_flag` is set.
    pub fn set5(&self) -> (r: bool)
        ensures
            r == ((self.0 / 4) % 2 == 1),
    {
        (self.0 / 4) % 2 == 1
    }
}

/// The sequence parameter set record (syntax 7.3.2.1.1 of the standard).
/// Optional fields are present only under their syntax-conditional guards:
/// the chroma and bit-depth fields only for the profiles that carry them, the
/// picture-order-count fields only for their `pic_order_cnt_type`, and the
/// cropping offsets only when `frame_cropping_flag` is set.
#[derive(Debug, Clone)]
pub struct SequenceParameterSet {
    pub profile_idc: u8,
    pub flag: SequenceParameterSetFlag,
    pub level_idc: u8,
    pub seq_parameter_set_id: u32,
    pub chroma_format_idc: Option<u32>,
    pub separate_colour_plane_flag: Option<u8>,
    pub bit_depth_luma_minus8: Option<u32>,
    pub bit_depth_chroma_minus8: Option<u32>,
    pub qpprime_y_zero_transform_bypass_flag: Option<bool>,
    pub seq_scaling_matrix_present_flag: Option<bool>,
    pub seq_scaling_list_present_flag: Option<Vec<bool>>,
    pub log2_max_frame_num_minus4: u32,
    pub pic_order_cnt_type: u32,
    pub log2_max_pic_order_cnt_lsb_minus4: Option<u32>,
    pub delta_pic_order_always_zero_flag: Option<bool>,
    pub offset_for_non_ref_pic: Option<i32>,
    pub offset_for_top_to_bottom_field: Option<i32>,
    pub num_ref_frames_in_pic_order_cnt_cycle: Option<u32>,
    pub offset_for_ref_frame: Option<Vec<i32>>,
    pub max_num_ref_frames: u32,
    pub gaps_in_frame_num_value_allowed_flag: bool,
    pub pic_width_in_mbs_minus1: u32,
    pub pic_height_in_map_units_minus1: u32,
    pub frame_mbs_only_flag: bool,
    pub mb_adaptive_frame_field_flag: Option<bool>,
    pub direct_8x8_inference_flag: bool,
    pub frame_cropping_flag: bool,
    pub frame_crop_left_offset: Option<u32>,
    pub frame_crop_right_offset: Option<u32>,
    pub frame_crop_top_offset: Option<u32>,
    pub frame_crop_bottom_offset: Option<u32>,
    pub vui_parameters_present_flag: bool,
}

} // verus!
