//! The nodes of a filter graph.

use crate::float_bits::FloatBits;
use crate::internal_types::ColorF;
use crate::units::LayoutRect;
use vstd::prelude::*;

verus! {

/// The number of coefficients that a convolution kernel can have.
pub const SVGFE_CONVOLVE_VALUES_LIMIT: usize = 25;

/// What a node reads: the output of an earlier node, by its place in the graph,
/// or nothing.
#[derive(Clone, Copy, Debug, PartialEq, Eq, Structural)]
pub enum FilterOpGraphPictureBufferId {
    NoBuffer,
    BufferId(u16),
}

/// One input of a node. Lengths are in whole device pixels.
#[derive(Clone, Copy, Debug, PartialEq, Eq, Structural)]
pub struct FilterGraphPictureReference {
    pub buffer_id: FilterOpGraphPictureBufferId,
    /// The part of the picture's space that the input covers.
    pub subregion: LayoutRect,
    pub offset_x: i64,
    pub offset_y: i64,
    /// A fractional translation of the subregion, applied when it is drawn.
    pub shift_x: FloatBits,
    pub shift_y: FloatBits,
    pub inflate: i16,
    /// How far each side of the part that the input contributes to lies from the
    /// side of its subregion.
    pub target_padding: LayoutRect,
}

/// A node of the graph, with its inputs.
#[derive(Debug)]
pub struct FilterGraphNode {
    pub kept_by_optimizer: bool,
    pub linear: bool,
    /// The transparent border around the node's output, in pixels.
    pub inflate: i16,
    pub inputs: Vec<FilterGraphPictureReference>,
    pub subregion: LayoutRect,
}

/// A node as a mathematical value.
#[verifier::ext_equal]
pub struct FilterGraphNodeView {
    pub kept_by_optimizer: bool,
    pub linear: bool,
    pub inflate: i16,
    pub inputs: Seq<FilterGraphPictureReference>,
    pub subregion: LayoutRect,
}

impl FilterGraphNode {
    pub open spec fn view(self) -> FilterGraphNodeView {
        FilterGraphNodeView {
            kept_by_optimizer: self.kept_by_optimizer,
            linear: self.linear,
            inflate: self.inflate,
            inputs: self.inputs@,
            subregion: self.subregion,
        }
    }
}

/// The parameters of a convolution. The reciprocal of the divisor is kept too.
#[derive(Clone, Copy, Debug)]
pub struct ConvolveMatrix {
    pub order_x: i32,
    pub order_y: i32,
    pub kernel: [FloatBits; 25],
    pub divisor: FloatBits,
    pub inverse_divisor: FloatBits,
    pub bias: FloatBits,
    pub target_x: i32,
    pub target_y: i32,
    pub kernel_unit_length_x: FloatBits,
    pub kernel_unit_length_y: FloatBits,
    pub preserve_alpha: i32,
}

/// The surface that a light falls on, and what it gives back.
#[derive(Clone, Copy, Debug)]
pub struct LightSurface {
    pub surface_scale: FloatBits,
    pub constant: FloatBits,
    /// The exponent of specular reflection; without meaning in diffuse reflection.
    pub exponent: FloatBits,
    pub kernel_unit_length_x: FloatBits,
    pub kernel_unit_length_y: FloatBits,
}

#[derive(Clone, Copy, Debug)]
pub struct DistantLight {
    pub azimuth: FloatBits,
    pub elevation: FloatBits,
}

#[derive(Clone, Copy, Debug)]
pub struct PointLight {
    pub x: FloatBits,
    pub y: FloatBits,
    pub z: FloatBits,
}

#[derive(Clone, Copy, Debug)]
pub struct SpotLight {
    pub x: FloatBits,
    pub y: FloatBits,
    pub z: FloatBits,
    pub points_at_x: FloatBits,
    pub points_at_y: FloatBits,
    pub points_at_z: FloatBits,
    pub cone_exponent: FloatBits,
    pub limiting_cone_angle: FloatBits,
}

#[derive(Clone, Copy, Debug)]
pub struct Turbulence {
    pub base_frequency_x: FloatBits,
    pub base_frequency_y: FloatBits,
    pub num_octaves: u32,
    pub seed: u32,
}

/// What a node does to its inputs.
#[derive(Clone, Copy, Debug)]
pub enum FilterGraphOp {
    SVGFEBlendColor,
    SVGFEBlendColorBurn,
    SVGFEBlendColorDodge,
    SVGFEBlendDarken,
    SVGFEBlendDifference,
    SVGFEBlendExclusion,
    SVGFEBlendHardLight,
    SVGFEBlendHue,
    SVGFEBlendLighten,
    SVGFEBlendLuminosity,
    SVGFEBlendMultiply,
    SVGFEBlendNormal,
    SVGFEBlendOverlay,
    SVGFEBlendSaturation,
    SVGFEBlendScreen,
    SVGFEBlendSoftLight,
    SVGFEColorMatrix { values: [FloatBits; 20] },
    SVGFEComponentTransfer,
    SVGFEComponentTransferInterned { handle: u64, creates_pixels: bool },
    SVGFECompositeArithmetic { k1: FloatBits, k2: FloatBits, k3: FloatBits, k4: FloatBits },
    SVGFECompositeATop,
    SVGFECompositeIn,
    SVGFECompositeLighter,
    SVGFECompositeOut,
    SVGFECompositeOver,
    SVGFECompositeXOR,
    SVGFEConvolveMatrixEdgeModeDuplicate { matrix: ConvolveMatrix },
    SVGFEConvolveMatrixEdgeModeNone { matrix: ConvolveMatrix },
    SVGFEConvolveMatrixEdgeModeWrap { matrix: ConvolveMatrix },
    SVGFEDiffuseLightingDistant { surface: LightSurface, distant: DistantLight },
    SVGFEDiffuseLightingPoint { surface: LightSurface, point: PointLight },
    SVGFEDiffuseLightingSpot { surface: LightSurface, spot: SpotLight },
    SVGFEDisplacementMap { scale: FloatBits, x_channel_selector: u32, y_channel_selector: u32 },
    SVGFEDropShadow {
        color: ColorF,
        dx: FloatBits,
        dy: FloatBits,
        std_deviation_x: FloatBits,
        std_deviation_y: FloatBits,
    },
    SVGFEFlood { color: ColorF },
    SVGFEGaussianBlur { std_deviation_x: FloatBits, std_deviation_y: FloatBits },
    SVGFEIdentity,
    SVGFEImage { sampling_filter: u32, transform: [FloatBits; 6] },
    SVGFEMorphologyDilate { radius_x: FloatBits, radius_y: FloatBits },
    SVGFEMorphologyErode { radius_x: FloatBits, radius_y: FloatBits },
    SVGFEOpacity { value: FloatBits },
    SVGFESourceAlpha,
    SVGFESourceGraphic,
    SVGFESpecularLightingDistant { surface: LightSurface, distant: DistantLight },
    SVGFESpecularLightingPoint { surface: LightSurface, point: PointLight },
    SVGFESpecularLightingSpot { surface: LightSurface, spot: SpotLight },
    SVGFETile,
    SVGFEToAlpha,
    SVGFETurbulenceWithFractalNoiseWithNoStitching { noise: Turbulence },
    SVGFETurbulenceWithFractalNoiseWithStitching { noise: Turbulence },
    SVGFETurbulenceWithTurbulenceNoiseWithNoStitching { noise: Turbulence },
    SVGFETurbulenceWithTurbulenceNoiseWithStitching { noise: Turbulence },
}

/// The lengths of an operation in device pixels: each length of the operation
/// times the scale of its axis, plus the offset of its axis where it is a position.
#[derive(Clone, Copy, Debug)]
pub struct DeviceLengths {
    /// Rounded to whole pixels.
    pub kernel_unit_length_x: FloatBits,
    pub kernel_unit_length_y: FloatBits,
    pub x: FloatBits,
    pub y: FloatBits,
    pub points_at_x: FloatBits,
    pub points_at_y: FloatBits,
    /// The scale of a displacement.
    pub displacement: FloatBits,
    pub dx: FloatBits,
    pub dy: FloatBits,
    pub std_deviation_x: FloatBits,
    pub std_deviation_y: FloatBits,
    /// The two deviations of a blur add up to an eighth of a pixel or more.
    pub blur_is_visible: bool,
    /// Rounded to whole pixels.
    pub radius_x: FloatBits,
    pub radius_y: FloatBits,
    pub base_frequency_x: FloatBits,
    pub base_frequency_y: FloatBits,
}

pub open spec fn device_convolve(matrix: ConvolveMatrix, to: DeviceLengths) -> ConvolveMatrix {
    ConvolveMatrix {
        kernel_unit_length_x: to.kernel_unit_length_x,
        kernel_unit_length_y: to.kernel_unit_length_y,
        ..matrix
    }
}

pub open spec fn device_surface(surface: LightSurface, to: DeviceLengths) -> LightSurface {
    LightSurface {
        kernel_unit_length_x: to.kernel_unit_length_x,
        kernel_unit_length_y: to.kernel_unit_length_y,
        ..surface
    }
}

pub open spec fn device_point(light: PointLight, to: DeviceLengths) -> PointLight {
    PointLight { x: to.x, y: to.y, ..light }
}

pub open spec fn device_spot(light: SpotLight, to: DeviceLengths) -> SpotLight {
    SpotLight {
        x: to.x,
        y: to.y,
        points_at_x: to.points_at_x,
        points_at_y: to.points_at_y,
        ..light
    }
}

/// Noise of every variety is drawn as fractal noise without stitching.
pub open spec fn device_noise(noise: Turbulence, to: DeviceLengths) -> FilterGraphOp {
    FilterGraphOp::SVGFETurbulenceWithFractalNoiseWithNoStitching {
        noise: Turbulence {
            base_frequency_x: to.base_frequency_x,
            base_frequency_y: to.base_frequency_y,
            ..noise
        },
    }
}

impl FilterGraphOp {
    /// The operation with its lengths in device pixels. A blur that cannot be
    /// seen becomes a copy.
    pub open spec fn spec_in_device_space(self, to: DeviceLengths) -> Self {
        match self {
            FilterGraphOp::SVGFEConvolveMatrixEdgeModeDuplicate { matrix } =>
                FilterGraphOp::SVGFEConvolveMatrixEdgeModeDuplicate {
                matrix: device_convolve(matrix, to),
            },
            FilterGraphOp::SVGFEConvolveMatrixEdgeModeNone { matrix } =>
                FilterGraphOp::SVGFEConvolveMatrixEdgeModeNone {
                matrix: device_convolve(matrix, to),
            },
            FilterGraphOp::SVGFEConvolveMatrixEdgeModeWrap { matrix } =>
                FilterGraphOp::SVGFEConvolveMatrixEdgeModeWrap {
                matrix: device_convolve(matrix, to),
            },
            FilterGraphOp::SVGFEDiffuseLightingDistant { surface, distant } =>
                FilterGraphOp::SVGFEDiffuseLightingDistant {
                surface: device_surface(surface, to),
                distant,
            },
            FilterGraphOp::SVGFEDiffuseLightingPoint { surface, point } =>
                FilterGraphOp::SVGFEDiffuseLightingPoint {
                surface: device_surface(surface, to),
                point: device_point(point, to),
            },
            FilterGraphOp::SVGFEDiffuseLightingSpot { surface, spot } =>
                FilterGraphOp::SVGFEDiffuseLightingSpot {
                surface: device_surface(surface, to),
                spot: device_spot(spot, to),
            },
            FilterGraphOp::SVGFESpecularLightingDistant { surface, distant } =>
                FilterGraphOp::SVGFESpecularLightingDistant {
                surface: device_surface(surface, to),
                distant,
            },
            FilterGraphOp::SVGFESpecularLightingPoint { surface, point } =>
                FilterGraphOp::SVGFESpecularLightingPoint {
                surface: device_surface(surface, to),
                point: device_point(point, to),
            },
            FilterGraphOp::SVGFESpecularLightingSpot { surface, spot } =>
                FilterGraphOp::SVGFESpecularLightingSpot {
                surface: device_surface(surface, to),
                spot: device_spot(spot, to),
            },
            FilterGraphOp::SVGFEDisplacementMap { scale, x_channel_selector, y_channel_selector } =>
                FilterGraphOp::SVGFEDisplacementMap {
                scale: to.displacement,
                x_channel_selector,
                y_channel_selector,
            },
            FilterGraphOp::SVGFEDropShadow { color, .. } => FilterGraphOp::SVGFEDropShadow {
                color,
                dx: to.dx,
                dy: to.dy,
                std_deviation_x: to.std_deviation_x,
                std_deviation_y: to.std_deviation_y,
            },
            FilterGraphOp::SVGFEGaussianBlur { .. } => if to.blur_is_visible {
                FilterGraphOp::SVGFEGaussianBlur {
                    std_deviation_x: to.std_deviation_x,
                    std_deviation_y: to.std_deviation_y,
                }
            } else {
                FilterGraphOp::SVGFEIdentity
            },
            FilterGraphOp::SVGFEMorphologyDilate { .. } => FilterGraphOp::SVGFEMorphologyDilate {
                radius_x: to.radius_x,
                radius_y: to.radius_y,
            },
            FilterGraphOp::SVGFEMorphologyErode { .. } => FilterGraphOp::SVGFEMorphologyErode {
                radius_x: to.radius_x,
                radius_y: to.radius_y,
            },
            FilterGraphOp::SVGFETurbulenceWithFractalNoiseWithNoStitching { noise } => device_noise(
                noise,
                to,
            ),
            FilterGraphOp::SVGFETurbulenceWithFractalNoiseWithStitching { noise } => device_noise(
                noise,
                to,
            ),
            FilterGraphOp::SVGFETurbulenceWithTurbulenceNoiseWithNoStitching { noise } =>
                device_noise(noise, to),
            FilterGraphOp::SVGFETurbulenceWithTurbulenceNoiseWithStitching { noise } =>
                device_noise(noise, to),
            _ => self,
        }
    }

    pub fn in_device_space(&self, to: &DeviceLengths) -> (r: Self)
        ensures
            r == self.spec_in_device_space(*to),
    {
        match *self {
            FilterGraphOp::SVGFEConvolveMatrixEdgeModeDuplicate { matrix } => {
                FilterGraphOp::SVGFEConvolveMatrixEdgeModeDuplicate {
                    matrix: Self::convolve_in_device_space(matrix, to),
                }
            },
            FilterGraphOp::SVGFEConvolveMatrixEdgeModeNone { matrix } => {
                FilterGraphOp::SVGFEConvolveMatrixEdgeModeNone {
                    matrix: Self::convolve_in_device_space(matrix, to),
                }
            },
            FilterGraphOp::SVGFEConvolveMatrixEdgeModeWrap { matrix } => {
                FilterGraphOp::SVGFEConvolveMatrixEdgeModeWrap {
                    matrix: Self::convolve_in_device_space(matrix, to),
                }
            },
            FilterGraphOp::SVGFEDiffuseLightingDistant { surface, distant } => {
                FilterGraphOp::SVGFEDiffuseLightingDistant {
                    surface: Self::surface_in_device_space(surface, to),
                    distant,
                }
            },
            FilterGraphOp::SVGFEDiffuseLightingPoint { surface, point } => {
                FilterGraphOp::SVGFEDiffuseLightingPoint {
                    surface: Self::surface_in_device_space(surface, to),
                    point: PointLight { x: to.x, y: to.y, z: point.z },
                }
            },
            FilterGraphOp::SVGFEDiffuseLightingSpot { surface, spot } => {
                FilterGraphOp::SVGFEDiffuseLightingSpot {
                    surface: Self::surface_in_device_space(surface, to),
                    spot: Self::spot_in_device_space(spot, to),
                }
            },
            FilterGraphOp::SVGFESpecularLightingDistant { surface, distant } => {
                FilterGraphOp::SVGFESpecularLightingDistant {
                    surface: Self::surface_in_device_space(surface, to),
                    distant,
                }
            },
            FilterGraphOp::SVGFESpecularLightingPoint { surface, point } => {
                FilterGraphOp::SVGFESpecularLightingPoint {
                    surface: Self::surface_in_device_space(surface, to),
                    point: PointLight { x: to.x, y: to.y, z: point.z },
                }
            },
            FilterGraphOp::SVGFESpecularLightingSpot { surface, spot } => {
                FilterGraphOp::SVGFESpecularLightingSpot {
                    surface: Self::surface_in_device_space(surface, to),
                    spot: Self::spot_in_device_space(spot, to),
                }
            },
            FilterGraphOp::SVGFEDisplacementMap {
                scale: _,
                x_channel_selector,
                y_channel_selector,
            } => FilterGraphOp::SVGFEDisplacementMap {
                scale: to.displacement,
                x_channel_selector,
                y_channel_selector,
            },
            FilterGraphOp::SVGFEDropShadow { color, .. } => FilterGraphOp::SVGFEDropShadow {
                color,
                dx: to.dx,
                dy: to.dy,
                std_deviation_x: to.std_deviation_x,
                std_deviation_y: to.std_deviation_y,
            },
            FilterGraphOp::SVGFEGaussianBlur { .. } => {
                if to.blur_is_visible {
                    FilterGraphOp::SVGFEGaussianBlur {
                        std_deviation_x: to.std_deviation_x,
                        std_deviation_y: to.std_deviation_y,
                    }
                } else {
                    FilterGraphOp::SVGFEIdentity
                }
            },
            FilterGraphOp::SVGFEMorphologyDilate { .. } => FilterGraphOp::SVGFEMorphologyDilate {
                radius_x: to.radius_x,
                radius_y: to.radius_y,
            },
            FilterGraphOp::SVGFEMorphologyErode { .. } => FilterGraphOp::SVGFEMorphologyErode {
                radius_x: to.radius_x,
                radius_y: to.radius_y,
            },
            FilterGraphOp::SVGFETurbulenceWithFractalNoiseWithNoStitching { noise } => {
                Self::noise_in_device_space(noise, to)
            },
            FilterGraphOp::SVGFETurbulenceWithFractalNoiseWithStitching { noise } => {
                Self::noise_in_device_space(noise, to)
            },
            FilterGraphOp::SVGFETurbulenceWithTurbulenceNoiseWithNoStitching { noise } => {
                Self::noise_in_device_space(noise, to)
            },
            FilterGraphOp::SVGFETurbulenceWithTurbulenceNoiseWithStitching { noise } => {
                Self::noise_in_device_space(noise, to)
            },
            _ => *self,
        }
    }

    fn convolve_in_device_space(matrix: ConvolveMatrix, to: &DeviceLengths) -> (r: ConvolveMatrix)
        ensures
            r == device_convolve(matrix, *to),
    {
        ConvolveMatrix {
            kernel_unit_length_x: to.kernel_unit_length_x,
            kernel_unit_length_y: to.kernel_unit_length_y,
            ..matrix
        }
    }

    fn surface_in_device_space(surface: LightSurface, to: &DeviceLengths) -> (r: LightSurface)
        ensures
            r == device_surface(surface, *to),
    {
        LightSurface {
            kernel_unit_length_x: to.kernel_unit_length_x,
            kernel_unit_length_y: to.kernel_unit_length_y,
            ..surface
        }
    }

    fn spot_in_device_space(light: SpotLight, to: &DeviceLengths) -> (r: SpotLight)
        ensures
            r == device_spot(light, *to),
    {
        SpotLight {
            x: to.x,
            y: to.y,
            points_at_x: to.points_at_x,
            points_at_y: to.points_at_y,
            ..light
        }
    }

    fn noise_in_device_space(noise: Turbulence, to: &DeviceLengths) -> (r: FilterGraphOp)
        ensures
            r == device_noise(noise, *to),
    {
        FilterGraphOp::SVGFETurbulenceWithFractalNoiseWithNoStitching {
            noise: Turbulence {
                base_frequency_x: to.base_frequency_x,
                base_frequency_y: to.base_frequency_y,
                ..noise
            },
        }
    }
}

} // verus!
