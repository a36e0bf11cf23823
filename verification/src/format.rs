//! Texture formats, and how they are named on the device.

use vstd::prelude::*;

verus! {

/// The format of a texture.
#[derive(Clone, Copy, Debug, PartialEq, Eq, Hash, Structural)]
pub enum GPUTextureFormat {
    Undefined,
    R8Unorm,
    R8Snorm,
    R8Uint,
    R8Sint,
    R16Uint,
    R16Sint,
    R16Float,
    Rg8Unorm,
    Rg8Snorm,
    Rg8Uint,
    Rg8Sint,
    R32Uint,
    R32Sint,
    R32Float,
    Rg16Uint,
    Rg16Sint,
    Rg16Float,
    Rgba8Unorm,
    Rgba8UnormSrgb,
    Rgba8Snorm,
    Rgba8Uint,
    Rgba8Sint,
    Bgra8Unorm,
    Bgra8UnormSrgb,
    Rgb9e5Ufloat,
    Rgb10a2Unorm,
    Rg11b10Ufloat,
    Rg32uint,
    Rg32Sint,
    Rg32Float,
    Rgba16Uint,
    Rgba16Sint,
    Rgba16Float,
    Rgba32Uint,
    Rgba32Sint,
    Rgba32Float,
    Stencil8,
    Depth16Unorm,
    Depth24Plus,
    Depth24PlusStencil8,
    Depth32Float,
    Depth32FloatStencil8,
    Bc1RgbaUnorm,
    Bc1RgbaUnormSrgb,
    Bc2RgbaUnorm,
    Bc2RgbaUnormSrgb,
    Bc3RgbaUnorm,
    Bc3RgbaUnormSrgb,
    Bc4RUnorm,
    Bc4RSnorm,
    Bc5RgUnorm,
    Bc5RgSnorm,
    Bc6hRgbUfloat,
    Bc6hRgbFloat,
    Bc7RgbaUnorm,
    Bc7RgbaUnormSrgb,
    Etc2Rgb8Unorm,
    Etc2Rgb8UnormSrgb,
    Etc2Rgb8a1Unorm,
    Etc2Rgb8a1UnormSrgb,
    Etc2Rgba8Unorm,
    Etc2Rgba8UnormSrgb,
    EacR11Unorm,
    EacR11Snorm,
    EacRg11Unorm,
    EacRg11Snorm,
    Astc4x4Unorm,
    Astc4x4UnormSrgb,
    Astc5x4Unorm,
    Astc5x4UnormSrgb,
    Astc5x5Unorm,
    Astc5x5UnormSrgb,
    Astc6x5Unorm,
    Astc6x5UnormSrgb,
    Astc6x6Unorm,
    Astc6x6UnormSrgb,
    Astc8x5Unorm,
    Astc8x5UnormSrgb,
    Astc8x6Unorm,
    Astc8x6UnormSrgb,
    Astc8x8Unorm,
    Astc8x8UnormSrgb,
    Astc10x5Unorm,
    Astc10x5UnormSrgb,
    Astc10x6Unorm,
    Astc10x6UnormSrgb,
    Astc10x8Unorm,
    Astc10x8UnormSrgb,
    Astc10x10Unorm,
    Astc10x10UnormSrgb,
    Astc12x10Unorm,
    Astc12x10UnormSrgb,
    Astc12x12Unorm,
    Astc12x12UnormSrgb,
}

impl GPUTextureFormat {
    /// The code by which the device names the format.
    pub open spec fn vk_code(self) -> i32 {
        match self {
            GPUTextureFormat::Undefined => 0,
            GPUTextureFormat::R8Unorm => 9,
            GPUTextureFormat::R8Snorm => 10,
            GPUTextureFormat::R8Uint => 13,
            GPUTextureFormat::R8Sint => 14,
            GPUTextureFormat::R16Uint => 74,
            GPUTextureFormat::R16Sint => 75,
            GPUTextureFormat::R16Float => 76,
            GPUTextureFormat::Rg8Unorm => 16,
            GPUTextureFormat::Rg8Snorm => 17,
            GPUTextureFormat::Rg8Uint => 20,
            GPUTextureFormat::Rg8Sint => 21,
            GPUTextureFormat::R32Uint => 98,
            GPUTextureFormat::R32Sint => 99,
            GPUTextureFormat::R32Float => 100,
            GPUTextureFormat::Rg16Uint => 81,
            GPUTextureFormat::Rg16Sint => 82,
            GPUTextureFormat::Rg16Float => 83,
            GPUTextureFormat::Rgba8Unorm => 37,
            GPUTextureFormat::Rgba8UnormSrgb => 43,
            GPUTextureFormat::Rgba8Snorm => 38,
            GPUTextureFormat::Rgba8Uint => 41,
            GPUTextureFormat::Rgba8Sint => 42,
            GPUTextureFormat::Bgra8Unorm => 44,
            GPUTextureFormat::Bgra8UnormSrgb => 50,
            GPUTextureFormat::Rgb9e5Ufloat => 123,
            GPUTextureFormat::Rgb10a2Unorm => 58,
            GPUTextureFormat::Rg11b10Ufloat => 122,
            GPUTextureFormat::Rg32uint => 101,
            GPUTextureFormat::Rg32Sint => 102,
            GPUTextureFormat::Rg32Float => 103,
            GPUTextureFormat::Rgba16Uint => 95,
            GPUTextureFormat::Rgba16Sint => 96,
            GPUTextureFormat::Rgba16Float => 97,
            GPUTextureFormat::Rgba32Uint => 107,
            GPUTextureFormat::Rgba32Sint => 108,
            GPUTextureFormat::Rgba32Float => 109,
            GPUTextureFormat::Stencil8 => 127,
            GPUTextureFormat::Depth16Unorm => 124,
            GPUTextureFormat::Depth24Plus => 125,
            GPUTextureFormat::Depth24PlusStencil8 => 129,
            GPUTextureFormat::Depth32Float => 126,
            GPUTextureFormat::Depth32FloatStencil8 => 130,
            GPUTextureFormat::Bc1RgbaUnorm => 133,
            GPUTextureFormat::Bc1RgbaUnormSrgb => 134,
            GPUTextureFormat::Bc2RgbaUnorm => 135,
            GPUTextureFormat::Bc2RgbaUnormSrgb => 136,
            GPUTextureFormat::Bc3RgbaUnorm => 137,
            GPUTextureFormat::Bc3RgbaUnormSrgb => 138,
            GPUTextureFormat::Bc4RUnorm => 139,
            GPUTextureFormat::Bc4RSnorm => 140,
            GPUTextureFormat::Bc5RgUnorm => 141,
            GPUTextureFormat::Bc5RgSnorm => 142,
            GPUTextureFormat::Bc6hRgbUfloat => 143,
            GPUTextureFormat::Bc6hRgbFloat => 144,
            GPUTextureFormat::Bc7RgbaUnorm => 145,
            GPUTextureFormat::Bc7RgbaUnormSrgb => 146,
            GPUTextureFormat::Etc2Rgb8Unorm => 147,
            GPUTextureFormat::Etc2Rgb8UnormSrgb => 148,
            GPUTextureFormat::Etc2Rgb8a1Unorm => 149,
            GPUTextureFormat::Etc2Rgb8a1UnormSrgb => 150,
            GPUTextureFormat::Etc2Rgba8Unorm => 151,
            GPUTextureFormat::Etc2Rgba8UnormSrgb => 152,
            GPUTextureFormat::EacR11Unorm => 153,
            GPUTextureFormat::EacR11Snorm => 154,
            GPUTextureFormat::EacRg11Unorm => 155,
            GPUTextureFormat::EacRg11Snorm => 156,
            GPUTextureFormat::Astc4x4Unorm => 157,
            GPUTextureFormat::Astc4x4UnormSrgb => 158,
            GPUTextureFormat::Astc5x4Unorm => 159,
            GPUTextureFormat::Astc5x4UnormSrgb => 160,
            GPUTextureFormat::Astc5x5Unorm => 161,
            GPUTextureFormat::Astc5x5UnormSrgb => 162,
            GPUTextureFormat::Astc6x5Unorm => 163,
            GPUTextureFormat::Astc6x5UnormSrgb => 164,
            GPUTextureFormat::Astc6x6Unorm => 165,
            GPUTextureFormat::Astc6x6UnormSrgb => 166,
            GPUTextureFormat::Astc8x5Unorm => 167,
            GPUTextureFormat::Astc8x5UnormSrgb => 168,
            GPUTextureFormat::Astc8x6Unorm => 169,
            GPUTextureFormat::Astc8x6UnormSrgb => 170,
            GPUTextureFormat::Astc8x8Unorm => 171,
            GPUTextureFormat::Astc8x8UnormSrgb => 172,
            GPUTextureFormat::Astc10x5Unorm => 173,
            GPUTextureFormat::Astc10x5UnormSrgb => 174,
            GPUTextureFormat::Astc10x6Unorm => 175,
            GPUTextureFormat::Astc10x6UnormSrgb => 176,
            GPUTextureFormat::Astc10x8Unorm => 177,
            GPUTextureFormat::Astc10x8UnormSrgb => 178,
            GPUTextureFormat::Astc10x10Unorm => 179,
            GPUTextureFormat::Astc10x10UnormSrgb => 180,
            GPUTextureFormat::Astc12x10Unorm => 181,
            GPUTextureFormat::Astc12x10UnormSrgb => 182,
            GPUTextureFormat::Astc12x12Unorm => 183,
            GPUTextureFormat::Astc12x12UnormSrgb => 184,
        }
    }
}

/// Whether the device's format code `code` names a texture format.
pub open spec fn is_texture_format_code(code: i32) -> bool {
    exists|f: GPUTextureFormat| #[trigger] f.vk_code() == code
}

/// The device's code of a texture format.
pub fn texture_format_code(format: GPUTextureFormat) -> (code: i32)
    ensures
        code == format.vk_code(),
{
    match format {
        GPUTextureFormat::Undefined => 0,
        GPUTextureFormat::R8Unorm => 9,
        GPUTextureFormat::R8Snorm => 10,
        GPUTextureFormat::R8Uint => 13,
        GPUTextureFormat::R8Sint => 14,
        GPUTextureFormat::R16Uint => 74,
        GPUTextureFormat::R16Sint => 75,
        GPUTextureFormat::R16Float => 76,
        GPUTextureFormat::Rg8Unorm => 16,
        GPUTextureFormat::Rg8Snorm => 17,
        GPUTextureFormat::Rg8Uint => 20,
        GPUTextureFormat::Rg8Sint => 21,
        GPUTextureFormat::R32Uint => 98,
        GPUTextureFormat::R32Sint => 99,
        GPUTextureFormat::R32Float => 100,
        GPUTextureFormat::Rg16Uint => 81,
        GPUTextureFormat::Rg16Sint => 82,
        GPUTextureFormat::Rg16Float => 83,
        GPUTextureFormat::Rgba8Unorm => 37,
        GPUTextureFormat::Rgba8UnormSrgb => 43,
        GPUTextureFormat::Rgba8Snorm => 38,
        GPUTextureFormat::Rgba8Uint => 41,
        GPUTextureFormat::Rgba8Sint => 42,
        GPUTextureFormat::Bgra8Unorm => 44,
        GPUTextureFormat::Bgra8UnormSrgb => 50,
        GPUTextureFormat::Rgb9e5Ufloat => 123,
        GPUTextureFormat::Rgb10a2Unorm => 58,
        GPUTextureFormat::Rg11b10Ufloat => 122,
        GPUTextureFormat::Rg32uint => 101,
        GPUTextureFormat::Rg32Sint => 102,
        GPUTextureFormat::Rg32Float => 103,
        GPUTextureFormat::Rgba16Uint => 95,
        GPUTextureFormat::Rgba16Sint => 96,
        GPUTextureFormat::Rgba16Float => 97,
        GPUTextureFormat::Rgba32Uint => 107,
        GPUTextureFormat::Rgba32Sint => 108,
        GPUTextureFormat::Rgba32Float => 109,
        GPUTextureFormat::Stencil8 => 127,
        GPUTextureFormat::Depth16Unorm => 124,
        GPUTextureFormat::Depth24Plus => 125,
        GPUTextureFormat::Depth24PlusStencil8 => 129,
        GPUTextureFormat::Depth32Float => 126,
        GPUTextureFormat::Depth32FloatStencil8 => 130,
        GPUTextureFormat::Bc1RgbaUnorm => 133,
        GPUTextureFormat::Bc1RgbaUnormSrgb => 134,
        GPUTextureFormat::Bc2RgbaUnorm => 135,
        GPUTextureFormat::Bc2RgbaUnormSrgb => 136,
        GPUTextureFormat::Bc3RgbaUnorm => 137,
        GPUTextureFormat::Bc3RgbaUnormSrgb => 138,
        GPUTextureFormat::Bc4RUnorm => 139,
        GPUTextureFormat::Bc4RSnorm => 140,
        GPUTextureFormat::Bc5RgUnorm => 141,
        GPUTextureFormat::Bc5RgSnorm => 142,
        GPUTextureFormat::Bc6hRgbUfloat => 143,
        GPUTextureFormat::Bc6hRgbFloat => 144,
        GPUTextureFormat::Bc7RgbaUnorm => 145,
        GPUTextureFormat::Bc7RgbaUnormSrgb => 146,
        GPUTextureFormat::Etc2Rgb8Unorm => 147,
        GPUTextureFormat::Etc2Rgb8UnormSrgb => 148,
        GPUTextureFormat::Etc2Rgb8a1Unorm => 149,
        GPUTextureFormat::Etc2Rgb8a1UnormSrgb => 150,
        GPUTextureFormat::Etc2Rgba8Unorm => 151,
        GPUTextureFormat::Etc2Rgba8UnormSrgb => 152,
        GPUTextureFormat::EacR11Unorm => 153,
        GPUTextureFormat::EacR11Snorm => 154,
        GPUTextureFormat::EacRg11Unorm => 155,
        GPUTextureFormat::EacRg11Snorm => 156,
        GPUTextureFormat::Astc4x4Unorm => 157,
        GPUTextureFormat::Astc4x4UnormSrgb => 158,
        GPUTextureFormat::Astc5x4Unorm => 159,
        GPUTextureFormat::Astc5x4UnormSrgb => 160,
        GPUTextureFormat::Astc5x5Unorm => 161,
        GPUTextureFormat::Astc5x5UnormSrgb => 162,
        GPUTextureFormat::Astc6x5Unorm => 163,
        GPUTextureFormat::Astc6x5UnormSrgb => 164,
        GPUTextureFormat::Astc6x6Unorm => 165,
        GPUTextureFormat::Astc6x6UnormSrgb => 166,
        GPUTextureFormat::Astc8x5Unorm => 167,
        GPUTextureFormat::Astc8x5UnormSrgb => 168,
        GPUTextureFormat::Astc8x6Unorm => 169,
        GPUTextureFormat::Astc8x6UnormSrgb => 170,
        GPUTextureFormat::Astc8x8Unorm => 171,
        GPUTextureFormat::Astc8x8UnormSrgb => 172,
        GPUTextureFormat::Astc10x5Unorm => 173,
        GPUTextureFormat::Astc10x5UnormSrgb => 174,
        GPUTextureFormat::Astc10x6Unorm => 175,
        GPUTextureFormat::Astc10x6UnormSrgb => 176,
        GPUTextureFormat::Astc10x8Unorm => 177,
        GPUTextureFormat::Astc10x8UnormSrgb => 178,
        GPUTextureFormat::Astc10x10Unorm => 179,
        GPUTextureFormat::Astc10x10UnormSrgb => 180,
        GPUTextureFormat::Astc12x10Unorm => 181,
        GPUTextureFormat::Astc12x10UnormSrgb => 182,
        GPUTextureFormat::Astc12x12Unorm => 183,
        GPUTextureFormat::Astc12x12UnormSrgb => 184,
    }
}

/// The texture format that the device's format code `code` names, if it
/// names one.
pub fn texture_format_of_code(code: i32) -> (format: Option<GPUTextureFormat>)
    ensures
        format is Some <==> is_texture_format_code(code),
        format is Some ==> format->Some_0.vk_code() == code,
{
    let format = match code {
        0 => Some(GPUTextureFormat::Undefined),
        9 => Some(GPUTextureFormat::R8Unorm),
        10 => Some(GPUTextureFormat::R8Snorm),
        13 => Some(GPUTextureFormat::R8Uint),
        14 => Some(GPUTextureFormat::R8Sint),
        16 => Some(GPUTextureFormat::Rg8Unorm),
        17 => Some(GPUTextureFormat::Rg8Snorm),
        20 => Some(GPUTextureFormat::Rg8Uint),
        21 => Some(GPUTextureFormat::Rg8Sint),
        37 => Some(GPUTextureFormat::Rgba8Unorm),
        38 => Some(GPUTextureFormat::Rgba8Snorm),
        41 => Some(GPUTextureFormat::Rgba8Uint),
        42 => Some(GPUTextureFormat::Rgba8Sint),
        43 => Some(GPUTextureFormat::Rgba8UnormSrgb),
        44 => Some(GPUTextureFormat::Bgra8Unorm),
        50 => Some(GPUTextureFormat::Bgra8UnormSrgb),
        58 => Some(GPUTextureFormat::Rgb10a2Unorm),
        74 => Some(GPUTextureFormat::R16Uint),
        75 => Some(GPUTextureFormat::R16Sint),
        76 => Some(GPUTextureFormat::R16Float),
        81 => Some(GPUTextureFormat::Rg16Uint),
        82 => Some(GPUTextureFormat::Rg16Sint),
        83 => Some(GPUTextureFormat::Rg16Float),
        95 => Some(GPUTextureFormat::Rgba16Uint),
        96 => Some(GPUTextureFormat::Rgba16Sint),
        97 => Some(GPUTextureFormat::Rgba16Float),
        98 => Some(GPUTextureFormat::R32Uint),
        99 => Some(GPUTextureFormat::R32Sint),
        100 => Some(GPUTextureFormat::R32Float),
        101 => Some(GPUTextureFormat::Rg32uint),
        102 => Some(GPUTextureFormat::Rg32Sint),
        103 => Some(GPUTextureFormat::Rg32Float),
        107 => Some(GPUTextureFormat::Rgba32Uint),
        108 => Some(GPUTextureFormat::Rgba32Sint),
        109 => Some(GPUTextureFormat::Rgba32Float),
        122 => Some(GPUTextureFormat::Rg11b10Ufloat),
        123 => Some(GPUTextureFormat::Rgb9e5Ufloat),
        124 => Some(GPUTextureFormat::Depth16Unorm),
        125 => Some(GPUTextureFormat::Depth24Plus),
        126 => Some(GPUTextureFormat::Depth32Float),
        127 => Some(GPUTextureFormat::Stencil8),
        129 => Some(GPUTextureFormat::Depth24PlusStencil8),
        130 => Some(GPUTextureFormat::Depth32FloatStencil8),
        133 => Some(GPUTextureFormat::Bc1RgbaUnorm),
        134 => Some(GPUTextureFormat::Bc1RgbaUnormSrgb),
        135 => Some(GPUTextureFormat::Bc2RgbaUnorm),
        136 => Some(GPUTextureFormat::Bc2RgbaUnormSrgb),
        137 => Some(GPUTextureFormat::Bc3RgbaUnorm),
        138 => Some(GPUTextureFormat::Bc3RgbaUnormSrgb),
        139 => Some(GPUTextureFormat::Bc4RUnorm),
        140 => Some(GPUTextureFormat::Bc4RSnorm),
        141 => Some(GPUTextureFormat::Bc5RgUnorm),
        142 => Some(GPUTextureFormat::Bc5RgSnorm),
        143 => Some(GPUTextureFormat::Bc6hRgbUfloat),
        144 => Some(GPUTextureFormat::Bc6hRgbFloat),
        145 => Some(GPUTextureFormat::Bc7RgbaUnorm),
        146 => Some(GPUTextureFormat::Bc7RgbaUnormSrgb),
        147 => Some(GPUTextureFormat::Etc2Rgb8Unorm),
        148 => Some(GPUTextureFormat::Etc2Rgb8UnormSrgb),
        149 => Some(GPUTextureFormat::Etc2Rgb8a1Unorm),
        150 => Some(GPUTextureFormat::Etc2Rgb8a1UnormSrgb),
        151 => Some(GPUTextureFormat::Etc2Rgba8Unorm),
        152 => Some(GPUTextureFormat::Etc2Rgba8UnormSrgb),
        153 => Some(GPUTextureFormat::EacR11Unorm),
        154 => Some(GPUTextureFormat::EacR11Snorm),
        155 => Some(GPUTextureFormat::EacRg11Unorm),
        156 => Some(GPUTextureFormat::EacRg11Snorm),
        157 => Some(GPUTextureFormat::Astc4x4Unorm),
        158 => Some(GPUTextureFormat::Astc4x4UnormSrgb),
        159 => Some(GPUTextureFormat::Astc5x4Unorm),
        160 => Some(GPUTextureFormat::Astc5x4UnormSrgb),
        161 => Some(GPUTextureFormat::Astc5x5Unorm),
        162 => Some(GPUTextureFormat::Astc5x5UnormSrgb),
        163 => Some(GPUTextureFormat::Astc6x5Unorm),
        164 => Some(GPUTextureFormat::Astc6x5UnormSrgb),
        165 => Some(GPUTextureFormat::Astc6x6Unorm),
        166 => Some(GPUTextureFormat::Astc6x6UnormSrgb),
        167 => Some(GPUTextureFormat::Astc8x5Unorm),
        168 => Some(GPUTextureFormat::Astc8x5UnormSrgb),
        169 => Some(GPUTextureFormat::Astc8x6Unorm),
        170 => Some(GPUTextureFormat::Astc8x6UnormSrgb),
        171 => Some(GPUTextureFormat::Astc8x8Unorm),
        172 => Some(GPUTextureFormat::Astc8x8UnormSrgb),
        173 => Some(GPUTextureFormat::Astc10x5Unorm),
        174 => Some(GPUTextureFormat::Astc10x5UnormSrgb),
        175 => Some(GPUTextureFormat::Astc10x6Unorm),
        176 => Some(GPUTextureFormat::Astc10x6UnormSrgb),
        177 => Some(GPUTextureFormat::Astc10x8Unorm),
        178 => Some(GPUTextureFormat::Astc10x8UnormSrgb),
        179 => Some(GPUTextureFormat::Astc10x10Unorm),
        180 => Some(GPUTextureFormat::Astc10x10UnormSrgb),
        181 => Some(GPUTextureFormat::Astc12x10Unorm),
        182 => Some(GPUTextureFormat::Astc12x10UnormSrgb),
        183 => Some(GPUTextureFormat::Astc12x12Unorm),
        184 => Some(GPUTextureFormat::Astc12x12UnormSrgb),
        _ => None,
    };
    proof {
        match format {
            Some(f) => {
                assert(f.vk_code() == code);
            },
            None => {
                assert forall|f: GPUTextureFormat| #[trigger] f.vk_code() != code by {}
            },
        }
    }
    format
}

/// No two texture formats have the same code on the device.
pub proof fn lemma_format_codes_differ(a: GPUTextureFormat, b: GPUTextureFormat)
    requires
        a.vk_code() == b.vk_code(),
    ensures
        a == b,
{
}

} // verus!
