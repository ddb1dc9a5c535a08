//! Textures: immutable in shape, replaced wholesale when their size changes.

use vstd::prelude::*;
use crate::util::{path_name_to_string, spec_names_file};
use super::GpuContext;
use super::binding::{BindingEntry, BindingResource, BindingType, StorageTextureAccess};

verus! {

/// The shape of a texture as shaders see it.
#[derive(Debug, Clone, Copy, PartialEq, Eq, Structural)]
pub enum TextureType {
    Texture1d,
    Texture2d,
    Texture2dArray,
    TextureCube,
    TextureCubeArray,
    Texture3d,
}

/// The dimensionality a texture is allocated with.
#[derive(Debug, Clone, Copy, PartialEq, Eq, Structural)]
pub enum TextureDimension {
    D1,
    D2,
    D3,
}

/// The dimensionality a texture view is bound with.
#[derive(Debug, Clone, Copy, PartialEq, Eq, Structural)]
pub enum TextureViewDimension {
    D1,
    D2,
    D2Array,
    Cube,
    CubeArray,
    D3,
}

impl TextureType {
    pub open spec fn spec_dimension(self) -> TextureDimension {
        match self {
            TextureType::Texture1d => TextureDimension::D1,
            TextureType::Texture3d => TextureDimension::D3,
            _ => TextureDimension::D2,
        }
    }

    pub open spec fn spec_view_dimension(self) -> TextureViewDimension {
        match self {
            TextureType::Texture1d => TextureViewDimension::D1,
            TextureType::Texture2d => TextureViewDimension::D2,
            TextureType::Texture2dArray => TextureViewDimension::D2Array,
            TextureType::TextureCube => TextureViewDimension::Cube,
            TextureType::TextureCubeArray => TextureViewDimension::CubeArray,
            TextureType::Texture3d => TextureViewDimension::D3,
        }
    }

    /// The dimensionality to allocate a texture of this type with: arrays and
    /// cubes are layered two-dimensional textures.
    #[verifier::when_used_as_spec(spec_dimension)]
    pub fn dimension(self) -> (d: TextureDimension)
        ensures
            d == self.spec_dimension(),
    {
        match self {
            TextureType::Texture1d => TextureDimension::D1,
            TextureType::Texture2d => TextureDimension::D2,
            TextureType::Texture2dArray => TextureDimension::D2,
            TextureType::TextureCube => TextureDimension::D2,
            TextureType::TextureCubeArray => TextureDimension::D2,
            TextureType::Texture3d => TextureDimension::D3,
        }
    }

    /// The dimensionality to view a texture of this type with.
    #[verifier::when_used_as_spec(spec_view_dimension)]
    pub fn view_dimension(self) -> (d: TextureViewDimension)
        ensures
            d == self.spec_view_dimension(),
    {
        match self {
            TextureType::Texture1d => TextureViewDimension::D1,
            TextureType::Texture2d => TextureViewDimension::D2,
            TextureType::Texture2dArray => TextureViewDimension::D2Array,
            TextureType::TextureCube => TextureViewDimension::Cube,
            TextureType::TextureCubeArray => TextureViewDimension::CubeArray,
            TextureType::Texture3d => TextureViewDimension::D3,
        }
    }
}


/// The texel formats the renderer allocates or presents to.
#[derive(Debug, Clone, Copy, PartialEq, Eq, Structural)]
pub enum TextureFormat {
    R32Float,
    Rgba32Float,
    Rgba16Float,
    Rgba8UnormSrgb,
    Bgra8UnormSrgb,
    Depth24Plus,
}

/// How a shader samples a texture.
#[derive(Debug, Clone, Copy, PartialEq, Eq, Structural)]
pub enum TextureSampleType {
    Float { filterable: bool },
    Depth,
    Sint,
    Uint,
}

/// Bytes that one texel occupies in a copy between host and texture; `None`
/// where the format cannot be copied as a whole.
pub open spec fn spec_block_copy_size(format: TextureFormat) -> Option<u32> {
    match format {
        TextureFormat::R32Float => Some(4u32),
        TextureFormat::Rgba32Float => Some(16u32),
        TextureFormat::Rgba16Float => Some(8u32),
        TextureFormat::Rgba8UnormSrgb => Some(4u32),
        TextureFormat::Bgra8UnormSrgb => Some(4u32),
        TextureFormat::Depth24Plus => None,
    }
}

/// Bytes that one pixel costs in a color attachment; `None` where the format
/// is no color target. The 8-bit four-channel formats cost 8 bytes each.
pub open spec fn spec_target_pixel_byte_cost(format: TextureFormat) -> Option<u32> {
    match format {
        TextureFormat::R32Float => Some(4u32),
        TextureFormat::Rgba32Float => Some(16u32),
        TextureFormat::Rgba16Float => Some(8u32),
        TextureFormat::Rgba8UnormSrgb => Some(8u32),
        TextureFormat::Bgra8UnormSrgb => Some(8u32),
        TextureFormat::Depth24Plus => None,
    }
}

/// The sample type of a whole texture of `format` on a device that can
/// (`float32_filterable`) or cannot filter 32-bit floats.
pub open spec fn spec_sample_type(format: TextureFormat, float32_filterable: bool) -> Option<
    TextureSampleType,
> {
    match format {
        TextureFormat::R32Float | TextureFormat::Rgba32Float => Some(
            TextureSampleType::Float { filterable: float32_filterable },
        ),
        TextureFormat::Depth24Plus => Some(TextureSampleType::Depth),
        _ => Some(TextureSampleType::Float { filterable: true }),
    }
}

/// `wgpu::TextureFormat::block_copy_size`, asked without an aspect. Trusted:
/// the result is the entry of wgpu's format table, which
/// [`spec_block_copy_size`] repeats for the formats of [`TextureFormat`].
#[verifier::external_body]
fn wgpu_block_copy_size(format: TextureFormat) -> (size: Option<u32>)
    ensures
        size == spec_block_copy_size(format),
{
    let format = match format {
        TextureFormat::R32Float => wgpu::TextureFormat::R32Float,
        TextureFormat::Rgba32Float => wgpu::TextureFormat::Rgba32Float,
        TextureFormat::Rgba16Float => wgpu::TextureFormat::Rgba16Float,
        TextureFormat::Rgba8UnormSrgb => wgpu::TextureFormat::Rgba8UnormSrgb,
        TextureFormat::Bgra8UnormSrgb => wgpu::TextureFormat::Bgra8UnormSrgb,
        TextureFormat::Depth24Plus => wgpu::TextureFormat::Depth24Plus,
    };
    format.block_copy_size(None)
}

/// `wgpu::TextureFormat::target_pixel_byte_cost`. Trusted: the result is the
/// entry of wgpu's render-target table, which [`spec_target_pixel_byte_cost`]
/// repeats for the formats of [`TextureFormat`].
#[verifier::external_body]
fn wgpu_target_pixel_byte_cost(format: TextureFormat) -> (cost: Option<u32>)
    ensures
        cost == spec_target_pixel_byte_cost(format),
{
    let format = match format {
        TextureFormat::R32Float => wgpu::TextureFormat::R32Float,
        TextureFormat::Rgba32Float => wgpu::TextureFormat::Rgba32Float,
        TextureFormat::Rgba16Float => wgpu::TextureFormat::Rgba16Float,
        TextureFormat::Rgba8UnormSrgb => wgpu::TextureFormat::Rgba8UnormSrgb,
        TextureFormat::Bgra8UnormSrgb => wgpu::TextureFormat::Bgra8UnormSrgb,
        TextureFormat::Depth24Plus => wgpu::TextureFormat::Depth24Plus,
    };
    format.target_pixel_byte_cost()
}

/// `wgpu::TextureFormat::sample_type`, asked without an aspect and with the
/// float-filtering feature present or absent. Trusted: floats of 32 bits are
/// filterable exactly with that feature, the other color formats of
/// [`TextureFormat`] always, and the depth format samples as depth.
#[verifier::external_body]
fn wgpu_sample_type(format: TextureFormat, float32_filterable: bool) -> (ty: Option<
    TextureSampleType,
>)
    ensures
        ty == spec_sample_type(format, float32_filterable),
{
    let features = if float32_filterable { wgpu::Features::FLOAT32_FILTERABLE } else { wgpu::Features::empty() };
    let format = match format {
        TextureFormat::R32Float => wgpu::TextureFormat::R32Float,
        TextureFormat::Rgba32Float => wgpu::TextureFormat::Rgba32Float,
        TextureFormat::Rgba16Float => wgpu::TextureFormat::Rgba16Float,
        TextureFormat::Rgba8UnormSrgb => wgpu::TextureFormat::Rgba8UnormSrgb,
        TextureFormat::Bgra8UnormSrgb => wgpu::TextureFormat::Bgra8UnormSrgb,
        TextureFormat::Depth24Plus => wgpu::TextureFormat::Depth24Plus,
    };
    format.sample_type(None, Some(features)).map(|ty| match ty {
        wgpu::TextureSampleType::Float { filterable } => TextureSampleType::Float { filterable },
        wgpu::TextureSampleType::Depth => TextureSampleType::Depth,
        wgpu::TextureSampleType::Sint => TextureSampleType::Sint,
        wgpu::TextureSampleType::Uint => TextureSampleType::Uint,
    })
}

impl TextureFormat {
    /// Bytes per texel in a copy, where the format has such a size.
    pub fn block_copy_size(self) -> (size: Option<u32>)
        ensures
            size == spec_block_copy_size(self),
    {
        wgpu_block_copy_size(self)
    }

    /// Bytes per pixel as a color target, where the format is one.
    pub fn target_pixel_byte_cost(self) -> (cost: Option<u32>)
        ensures
            cost == spec_target_pixel_byte_cost(self),
    {
        wgpu_target_pixel_byte_cost(self)
    }

    /// The sample type of a whole texture of this format.
    pub fn sample_type(self, float32_filterable: bool) -> (ty: Option<TextureSampleType>)
        ensures
            ty == spec_sample_type(self, float32_filterable),
    {
        wgpu_sample_type(self, float32_filterable)
    }
}


/// What a texture may be used for.
#[derive(Debug, Clone, Copy, PartialEq, Eq, Structural)]
pub struct TextureUsages {
    pub copy_src: bool,
    pub copy_dst: bool,
    pub texture_binding: bool,
    pub storage_binding: bool,
    pub render_attachment: bool,
}

impl TextureUsages {
    /// No use at all.
    pub fn empty() -> (usage: Self)
        ensures
            usage == (TextureUsages {
                copy_src: false,
                copy_dst: false,
                texture_binding: false,
                storage_binding: false,
                render_attachment: false,
            }),
    {
        TextureUsages {
            copy_src: false,
            copy_dst: false,
            texture_binding: false,
            storage_binding: false,
            render_attachment: false,
        }
    }

    /// Every use that `self` or `other` allows.
    pub fn union(self, other: Self) -> (usage: Self)
        ensures
            usage == (TextureUsages {
                copy_src: self.copy_src || other.copy_src,
                copy_dst: self.copy_dst || other.copy_dst,
                texture_binding: self.texture_binding || other.texture_binding,
                storage_binding: self.storage_binding || other.storage_binding,
                render_attachment: self.render_attachment || other.render_attachment,
            }),
    {
        TextureUsages {
            copy_src: self.copy_src || other.copy_src,
            copy_dst: self.copy_dst || other.copy_dst,
            texture_binding: self.texture_binding || other.texture_binding,
            storage_binding: self.storage_binding || other.storage_binding,
            render_attachment: self.render_attachment || other.render_attachment,
        }
    }
}

/// Extent of a texture or of a copy, in texels.
#[derive(Debug, Clone, Copy, PartialEq, Eq, Structural)]
pub struct Extent3d {
    pub width: u32,
    pub height: u32,
    pub depth_or_array_layers: u32,
}

/// Everything a device needs to allocate a texture.
#[derive(Debug)]
pub struct TextureDescriptor {
    pub label: String,
    pub size: Extent3d,
    pub mip_level_count: u32,
    pub sample_count: u32,
    pub dimension: TextureDimension,
    pub format: TextureFormat,
    pub usage: TextureUsages,
    pub view_formats: Vec<TextureFormat>,
}

impl TextureDescriptor {
    /// Two descriptors that allocate textures of the same shape and name.
    pub open spec fn same_as(&self, other: &TextureDescriptor) -> bool {
        &&& self.label@ == other.label@
        &&& self.size == other.size
        &&& self.mip_level_count == other.mip_level_count
        &&& self.sample_count == other.sample_count
        &&& self.dimension == other.dimension
        &&& self.format == other.format
        &&& self.usage == other.usage
        &&& self.view_formats@ == other.view_formats@
    }

    /// A copy of the descriptor.
    pub fn duplicate(&self) -> (copy: Self)
        ensures
            copy.same_as(self),
    {
        let mut view_formats: Vec<TextureFormat> = Vec::new();
        let mut i: usize = 0;
        while i < self.view_formats.len()
            invariant
                i <= self.view_formats.len(),
                view_formats@ == self.view_formats@.take(i as int),
            decreases self.view_formats.len() - i,
        {
            view_formats.push(self.view_formats[i]);
            i = i + 1;
        }
        assert(view_formats@ =~= self.view_formats@);
        TextureDescriptor {
            label: self.label.clone(),
            size: self.size,
            mip_level_count: self.mip_level_count,
            sample_count: self.sample_count,
            dimension: self.dimension,
            format: self.format,
            usage: self.usage,
            view_formats,
        }
    }
}

/// A view of a texture as it is bound or attached. `None` leaves a choice to
/// the device: the texture's own format and dimension, all remaining levels
/// or layers.
#[derive(Debug, Clone, Copy, PartialEq, Eq, Structural)]
pub struct TextureView {
    pub texture: u64,
    pub format: Option<TextureFormat>,
    pub dimension: Option<TextureViewDimension>,
    pub base_mip_level: u32,
    pub mip_level_count: Option<u32>,
    pub base_array_layer: u32,
    pub array_layer_count: Option<u32>,
}

/// The texel an upload starts at.
#[derive(Debug, Clone, Copy, PartialEq, Eq, Structural)]
pub struct Origin3d {
    pub x: u32,
    pub y: u32,
    pub z: u32,
}

/// Where and how the bytes of an upload are laid out.
#[derive(Debug, Clone, Copy, PartialEq, Eq, Structural)]
pub struct TextureWrite {
    pub texture: u64,
    pub mip_level: u32,
    pub origin: Origin3d,
    pub bytes_per_row: u32,
    pub rows_per_image: Option<u32>,
    pub extent: Extent3d,
}

/// Why a texture cannot take an upload.
#[derive(Debug, Clone, Copy, PartialEq, Eq, Structural)]
pub enum TextureError {
    /// The file that holds the texels could not be read.
    Unreadable,
    /// The format has no size per texel that a host could write.
    FormatNotWritable,
    /// A row of the upload is longer than a row pitch can express.
    RowTooLong,
}

/// Extent of the three axes, each cut down to 32 bits.
pub open spec fn spec_extent_of(size: (usize, usize, usize)) -> Extent3d {
    Extent3d {
        width: size.0 as u32,
        height: size.1 as u32,
        depth_or_array_layers: size.2 as u32,
    }
}

/// Extent of the three axes, each cut down to 32 bits.
pub fn extent_of(size: (usize, usize, usize)) -> (extent: Extent3d)
    ensures
        extent == spec_extent_of(size),
{
    Extent3d {
        width: #[verifier::truncate] (size.0 as u32),
        height: #[verifier::truncate] (size.1 as u32),
        depth_or_array_layers: #[verifier::truncate] (size.2 as u32),
    }
}

/// Size of one axis at mip level `mip`: halved per level, never under one texel.
pub open spec fn spec_mip_extent(full: u32, mip: u32) -> u32 {
    if (full >> mip) == 0 {
        1u32
    } else {
        full >> mip
    }
}

/// The layout of an upload of `size` texels at `bytes_per_pixel`: rows are
/// packed, and images are `size.1` rows apart where `rows_per_image` is set.
pub open spec fn spec_upload(
    texture: u64,
    bytes_per_pixel: u32,
    size: (usize, usize, usize),
    offset: (usize, usize, usize),
    mip_level: u32,
    rows_per_image: Option<u32>,
) -> Result<TextureWrite, TextureError> {
    let extent = spec_extent_of(size);
    if extent.width * bytes_per_pixel > u32::MAX {
        Err(TextureError::RowTooLong)
    } else {
        Ok(
            TextureWrite {
                texture,
                mip_level,
                origin: Origin3d { x: offset.0 as u32, y: offset.1 as u32, z: offset.2 as u32 },
                bytes_per_row: (extent.width * bytes_per_pixel) as u32,
                rows_per_image,
                extent,
            },
        )
    }
}

/// Lays out an upload of `size` texels at `bytes_per_pixel`.
pub fn upload_layout(
    texture: u64,
    bytes_per_pixel: u32,
    size: (usize, usize, usize),
    offset: (usize, usize, usize),
    mip_level: u32,
    rows_per_image: Option<u32>,
) -> (write: Result<TextureWrite, TextureError>)
    ensures
        write == spec_upload(texture, bytes_per_pixel, size, offset, mip_level, rows_per_image),
{
    let extent = extent_of(size);
    match extent.width.checked_mul(bytes_per_pixel) {
        Some(bytes_per_row) => Ok(
            TextureWrite {
                texture,
                mip_level,
                origin: Origin3d {
                    x: #[verifier::truncate] (offset.0 as u32),
                    y: #[verifier::truncate] (offset.1 as u32),
                    z: #[verifier::truncate] (offset.2 as u32),
                },
                bytes_per_row,
                rows_per_image,
                extent,
            },
        ),
        None => Err(TextureError::RowTooLong),
    }
}

/// A texture on the device: its identity and the descriptor it was allocated
/// with. The shape never changes; a texture of another size is another texture.
#[derive(Debug)]
pub struct Texture {
    id: u64,
    desc: TextureDescriptor,
    ty: TextureType,
}

impl Texture {
    /// Identity of the device texture.
    pub closed spec fn spec_id(&self) -> u64 {
        self.id
    }

    /// The descriptor the texture was allocated with.
    pub closed spec fn spec_desc(&self) -> TextureDescriptor {
        self.desc
    }

    /// The shape of the texture as shaders see it.
    pub closed spec fn spec_ty(&self) -> TextureType {
        self.ty
    }

    /// Allocates a single-sampled texture named `name` of `size` texels with
    /// `mip_count` levels.
    pub fn new(
        gpu: &mut GpuContext,
        name: String,
        size: (usize, usize, usize),
        mip_count: usize,
        format: TextureFormat,
        usage: TextureUsages,
        ty: TextureType,
    ) -> (texture: Self)
        requires
            old(gpu).has_room(1),
        ensures
            texture.spec_id() == old(gpu).next_id(),
            final(gpu).next_id() == old(gpu).next_id() + 1,
            final(gpu).spec_float32_filterable() == old(gpu).spec_float32_filterable(),
            texture.spec_ty() == ty,
            texture.spec_desc().label@ == name@,
            texture.spec_desc().size == spec_extent_of(size),
            texture.spec_desc().mip_level_count == mip_count as u32,
            texture.spec_desc().sample_count == 1,
            texture.spec_desc().dimension == ty.spec_dimension(),
            texture.spec_desc().format == format,
            texture.spec_desc().usage == usage,
            texture.spec_desc().view_formats@ == Seq::<TextureFormat>::empty(),
    {
        let desc = TextureDescriptor {
            label: name,
            size: extent_of(size),
            mip_level_count: #[verifier::truncate] (mip_count as u32),
            sample_count: 1,
            dimension: ty.dimension(),
            format,
            usage,
            view_formats: Vec::new(),
        };
        Texture { id: gpu.allocate(), desc, ty }
    }

    /// Allocates a texture from a finished descriptor.
    pub fn create(gpu: &mut GpuContext, desc: TextureDescriptor, ty: TextureType) -> (texture:
        Self)
        requires
            old(gpu).has_room(1),
        ensures
            texture.spec_id() == old(gpu).next_id(),
            final(gpu).next_id() == old(gpu).next_id() + 1,
            final(gpu).spec_float32_filterable() == old(gpu).spec_float32_filterable(),
            texture.spec_ty() == ty,
            texture.spec_desc() == desc,
    {
        Texture { id: gpu.allocate(), desc, ty }
    }

    /// Identity of the device texture.
    #[verifier::when_used_as_spec(spec_id)]
    pub fn inner(&self) -> (id: u64)
        ensures
            id == self.spec_id(),
    {
        self.id
    }

    /// The descriptor the texture was allocated with.
    pub fn desc(&self) -> (desc: &TextureDescriptor)
        ensures
            *desc == self.spec_desc(),
    {
        &self.desc
    }

    /// The shape of the texture as shaders see it.
    pub fn ty(&self) -> (ty: TextureType)
        ensures
            ty == self.spec_ty(),
    {
        self.ty
    }

    /// Lays out an upload of `size` texels at `offset` into mip level
    /// `target_mip`, at the format's cost per pixel as a color target.
    pub fn write(
        &self,
        size: (usize, usize, usize),
        offset: (usize, usize, usize),
        target_mip: u32,
    ) -> (write: Result<TextureWrite, TextureError>)
        ensures
            write == (match spec_target_pixel_byte_cost(self.spec_desc().format) {
                None => Err(TextureError::FormatNotWritable),
                Some(bytes_per_pixel) => spec_upload(
                    self.spec_id(),
                    bytes_per_pixel,
                    size,
                    offset,
                    target_mip,
                    Some(size.1 as u32),
                ),
            }),
    {
        match self.desc.format.target_pixel_byte_cost() {
            None => Err(TextureError::FormatNotWritable),
            Some(bytes_per_pixel) => upload_layout(
                self.id,
                bytes_per_pixel,
                size,
                offset,
                target_mip,
                Some(#[verifier::truncate] (size.1 as u32)),
            ),
        }
    }

    /// Lays out an upload that fills mip level `target_mip`.
    pub fn write_whole(&self, target_mip: u32) -> (write: Result<TextureWrite, TextureError>)
        requires
            target_mip < 32,
        ensures
            write == (match spec_target_pixel_byte_cost(self.spec_desc().format) {
                None => Err(TextureError::FormatNotWritable),
                Some(bytes_per_pixel) => spec_upload(
                    self.spec_id(),
                    bytes_per_pixel,
                    (
                        spec_mip_extent(self.spec_desc().size.width, target_mip) as usize,
                        spec_mip_extent(self.spec_desc().size.height, target_mip) as usize,
                        spec_mip_extent(
                            self.spec_desc().size.depth_or_array_layers,
                            target_mip,
                        ) as usize,
                    ),
                    (0usize, 0usize, 0usize),
                    target_mip,
                    Some(spec_mip_extent(self.spec_desc().size.height, target_mip)),
                ),
            }),
    {
        let width: u32 = mip_extent(self.desc.size.width, target_mip);
        let height: u32 = mip_extent(self.desc.size.height, target_mip);
        let depth: u32 = mip_extent(self.desc.size.depth_or_array_layers, target_mip);
        self.write((width as usize, height as usize, depth as usize), (0, 0, 0), target_mip)
    }

    /// A view of mip levels `mip_range` and array layers `layer_range`, in the
    /// texture's own format and shape.
    pub fn view(&self, mip_range: (u32, u32), layer_range: (u32, u32)) -> (view: TextureView)
        requires
            mip_range.0 <= mip_range.1,
            layer_range.0 <= layer_range.1,
        ensures
            view == (TextureView {
                texture: self.spec_id(),
                format: Some(self.spec_desc().format),
                dimension: Some(self.spec_ty().spec_view_dimension()),
                base_mip_level: mip_range.0,
                mip_level_count: Some((mip_range.1 - mip_range.0) as u32),
                base_array_layer: layer_range.0,
                array_layer_count: Some((layer_range.1 - layer_range.0) as u32),
            }),
    {
        TextureView {
            texture: self.id,
            format: Some(self.desc.format),
            dimension: Some(self.ty.view_dimension()),
            base_mip_level: mip_range.0,
            mip_level_count: Some(mip_range.1 - mip_range.0),
            base_array_layer: layer_range.0,
            array_layer_count: Some(layer_range.1 - layer_range.0),
        }
    }

    /// The view of the whole texture that leaves every choice to the device.
    pub fn default_view(&self) -> (view: TextureView)
        ensures
            view == (TextureView {
                texture: self.spec_id(),
                format: None,
                dimension: None,
                base_mip_level: 0,
                mip_level_count: None,
                base_array_layer: 0,
                array_layer_count: None,
            }),
    {
        TextureView {
            texture: self.id,
            format: None,
            dimension: None,
            base_mip_level: 0,
            mip_level_count: None,
            base_array_layer: 0,
            array_layer_count: None,
        }
    }

    /// Replaces the device texture by a new one of the same descriptor.
    pub fn recreate(&mut self, gpu: &mut GpuContext)
        requires
            old(gpu).has_room(1),
        ensures
            final(self).spec_id() == old(gpu).next_id(),
            final(gpu).next_id() == old(gpu).next_id() + 1,
            final(gpu).spec_float32_filterable() == old(gpu).spec_float32_filterable(),
            final(self).spec_desc() == old(self).spec_desc(),
            final(self).spec_ty() == old(self).spec_ty(),
    {
        self.id = gpu.allocate();
    }

    /// Binds `view` as a sampled texture of this texture's format and shape,
    /// on a device that can or cannot filter 32-bit floats.
    pub fn bind_view(&self, view: TextureView, float32_filterable: bool) -> (entry: BindingEntry)
        ensures
            spec_sample_type(self.spec_desc().format, float32_filterable) matches Some(sample_type)
                && entry == (BindingEntry {
                binding_type: BindingType::Texture {
                    sample_type,
                    view_dimension: self.spec_ty().spec_view_dimension(),
                    multisampled: false,
                },
                count: None,
                resource: BindingResource::TextureView(view),
            }),
    {
        let sample_type = match self.desc.format.sample_type(float32_filterable) {
            Some(sample_type) => sample_type,
            None => TextureSampleType::Float { filterable: false },
        };
        BindingEntry {
            binding_type: BindingType::Texture {
                sample_type,
                view_dimension: self.ty.view_dimension(),
                multisampled: false,
            },
            count: None,
            resource: BindingResource::TextureView(view),
        }
    }

    /// Binds `view` as a storage texture of this texture's format and shape.
    pub fn bind_storage(&self, view: TextureView, access: StorageTextureAccess) -> (entry:
        BindingEntry)
        ensures
            entry == (BindingEntry {
                binding_type: BindingType::StorageTexture {
                    access,
                    format: self.spec_desc().format,
                    view_dimension: self.spec_ty().spec_view_dimension(),
                },
                count: None,
                resource: BindingResource::TextureView(view),
            }),
    {
        BindingEntry {
            binding_type: BindingType::StorageTexture {
                access,
                format: self.desc.format,
                view_dimension: self.ty.view_dimension(),
            },
            count: None,
            resource: BindingResource::TextureView(view),
        }
    }

    /// The texture that the raw file at `path` fills, named by the name of
    /// the file, together with the upload that fills it: `contents` is what
    /// was read from the file, or `None` where it could not be read. Rows
    /// are packed, and the images of a three-dimensional texture are
    /// `size.1` rows apart. Nothing is allocated where the texture cannot
    /// be filled.
    pub fn load_raw(
        gpu: &mut GpuContext,
        path: &str,
        contents: Option<Vec<u8>>,
        size: (usize, usize, usize),
        format: TextureFormat,
        usage: TextureUsages,
        ty: TextureType,
    ) -> (loaded: Result<RawTexture, TextureError>)
        requires
            old(gpu).has_room(1),
            spec_names_file(path@),
        ensures
            final(gpu).spec_float32_filterable() == old(gpu).spec_float32_filterable(),
            spec_raw_upload(old(gpu).next_id(), contents is Some, size, format, ty) matches Err(
                error,
            ) ==> loaded == Err::<RawTexture, TextureError>(error) && final(gpu).next_id() == old(
                gpu,
            ).next_id(),
            spec_raw_upload(old(gpu).next_id(), contents is Some, size, format, ty) matches Ok(
                write,
            ) ==> {
                &&& loaded matches Ok(raw)
                &&& raw.write == write
                &&& contents matches Some(bytes) && raw.contents@ == bytes@
                &&& raw.texture.spec_id() == old(gpu).next_id()
                &&& raw.texture.spec_ty() == ty
                &&& raw.texture.spec_desc().label@ == crate::util::spec_file_name(path@)
                &&& raw.texture.spec_desc().size == spec_extent_of(size)
                &&& raw.texture.spec_desc().mip_level_count == 1
                &&& raw.texture.spec_desc().sample_count == 1
                &&& raw.texture.spec_desc().dimension == ty.spec_dimension()
                &&& raw.texture.spec_desc().format == format
                &&& raw.texture.spec_desc().usage == usage
                &&& raw.texture.spec_desc().view_formats@ == Seq::<TextureFormat>::empty()
                &&& final(gpu).next_id() == old(gpu).next_id() + 1
            },
    {
        Self::load_named(gpu, path_name_to_string(path), contents, size, format, usage, ty)
    }

    /// The texture named `name` that a raw file of `size` texels fills,
    /// together with the upload that fills it: `contents` is what was read
    /// from the file, or `None` where it could not be read. Rows are packed,
    /// and the images of a three-dimensional texture are `size.1` rows
    /// apart. Nothing is allocated where the texture cannot be filled.
    pub fn load_named(
        gpu: &mut GpuContext,
        name: String,
        contents: Option<Vec<u8>>,
        size: (usize, usize, usize),
        format: TextureFormat,
        usage: TextureUsages,
        ty: TextureType,
    ) -> (loaded: Result<RawTexture, TextureError>)
        requires
            old(gpu).has_room(1),
        ensures
            final(gpu).spec_float32_filterable() == old(gpu).spec_float32_filterable(),
            spec_raw_upload(old(gpu).next_id(), contents is Some, size, format, ty) matches Err(
                error,
            ) ==> loaded == Err::<RawTexture, TextureError>(error) && final(gpu).next_id() == old(
                gpu,
            ).next_id(),
            spec_raw_upload(old(gpu).next_id(), contents is Some, size, format, ty) matches Ok(
                write,
            ) ==> {
                &&& loaded matches Ok(raw)
                &&& raw.write == write
                &&& contents matches Some(bytes) && raw.contents@ == bytes@
                &&& raw.texture.spec_id() == old(gpu).next_id()
                &&& raw.texture.spec_ty() == ty
                &&& raw.texture.spec_desc().label@ == name@
                &&& raw.texture.spec_desc().size == spec_extent_of(size)
                &&& raw.texture.spec_desc().mip_level_count == 1
                &&& raw.texture.spec_desc().sample_count == 1
                &&& raw.texture.spec_desc().dimension == ty.spec_dimension()
                &&& raw.texture.spec_desc().format == format
                &&& raw.texture.spec_desc().usage == usage
                &&& raw.texture.spec_desc().view_formats@ == Seq::<TextureFormat>::empty()
                &&& final(gpu).next_id() == old(gpu).next_id() + 1
            },
    {
        let bytes: Vec<u8> = match contents {
            Some(bytes) => bytes,
            None => {
                return Err(TextureError::Unreadable);
            },
        };
        let rows_per_image: Option<u32> = match ty.dimension() {
            TextureDimension::D3 => Some(#[verifier::truncate] (size.1 as u32)),
            _ => None,
        };
        let bytes_per_pixel: u32 = match format.block_copy_size() {
            Some(bytes_per_pixel) => bytes_per_pixel,
            None => {
                return Err(TextureError::FormatNotWritable);
            },
        };
        let id: u64 = gpu.created();
        match upload_layout(id, bytes_per_pixel, size, (0, 0, 0), 0, rows_per_image) {
            Ok(write) => {
                let texture = Texture::new(gpu, name, size, 1, format, usage, ty);
                Ok(RawTexture { texture, write, contents: bytes })
            },
            Err(error) => Err(error),
        }
    }
}

/// A texture, the upload that fills it, and the bytes of that upload.
#[derive(Debug)]
pub struct RawTexture {
    pub texture: Texture,
    pub write: TextureWrite,
    pub contents: Vec<u8>,
}

/// The upload that fills the texture `texture` of `size` texels of `format`
/// from a raw file, or why there is none: the file was not `read`, the
/// format has no size per texel, or a row is too long.
pub open spec fn spec_raw_upload(
    texture: u64,
    read: bool,
    size: (usize, usize, usize),
    format: TextureFormat,
    ty: TextureType,
) -> Result<TextureWrite, TextureError> {
    if !read {
        Err(TextureError::Unreadable)
    } else {
        match spec_block_copy_size(format) {
            None => Err(TextureError::FormatNotWritable),
            Some(bytes_per_pixel) => spec_upload(
                texture,
                bytes_per_pixel,
                size,
                (0usize, 0usize, 0usize),
                0,
                spec_rows_per_image(ty, size),
            ),
        }
    }
}

/// Rows between the images of an upload: stated for three-dimensional
/// textures only.
pub open spec fn spec_rows_per_image(ty: TextureType, size: (usize, usize, usize)) -> Option<u32> {
    if ty.spec_dimension() == TextureDimension::D3 {
        Some(size.1 as u32)
    } else {
        None
    }
}

/// Size of one axis at mip level `mip`.
pub fn mip_extent(full: u32, mip: u32) -> (extent: u32)
    requires
        mip < 32,
    ensures
        extent == spec_mip_extent(full, mip),
{
    let shifted: u32 = full >> mip;
    if shifted == 0 {
        1
    } else {
        shifted
    }
}


/// How a sampler blends between texels.
#[derive(Debug, Clone, Copy, PartialEq, Eq, Structural)]
pub enum FilterMode {
    Nearest,
    Linear,
}

/// A sampler on the device.
#[derive(Debug)]
pub struct Sampler {
    pub id: u64,
    pub label: String,
    pub mag_filter: FilterMode,
    pub min_filter: FilterMode,
}

impl Sampler {
    /// A sampler named `label` with the given filters.
    pub fn new(gpu: &mut GpuContext, label: &str, mag_filter: FilterMode, min_filter: FilterMode) -> (sampler:
        Self)
        requires
            old(gpu).has_room(1),
        ensures
            sampler.id == old(gpu).next_id(),
            sampler.label@ == label@,
            sampler.mag_filter == mag_filter,
            sampler.min_filter == min_filter,
            final(gpu).next_id() == old(gpu).next_id() + 1,
            final(gpu).spec_float32_filterable() == old(gpu).spec_float32_filterable(),
    {
        Sampler { id: gpu.allocate(), label: label.to_owned(), mag_filter, min_filter }
    }
}

} // verus!
