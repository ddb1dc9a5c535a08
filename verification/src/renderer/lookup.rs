//! Lookup tables that are read from raw files at startup and bound read-only.

use vstd::prelude::*;
use vstd::pervasive::unreached;
use vstd::string::StringExecFns;
use crate::render::GpuContext;
use crate::render::binding::{
    bind_sampler, bind_storage_texture, bind_texture, spec_bind_sampler, spec_bind_storage_texture,
    spec_bind_texture, spec_group_of, spec_layout_of, Binding, BindingEntry, SamplerBindingType,
    StorageTextureAccess,
};
use crate::render::texture::{
    spec_block_copy_size, spec_raw_upload, spec_upload, Extent3d, FilterMode, Sampler, Texture,
    TextureDimension, TextureError, TextureFormat, TextureSampleType, TextureType, TextureUsages,
    TextureView, TextureViewDimension, TextureWrite,
};
use crate::util::asset_path;

verus! {

/// A one-dimensional texture and the upload that fills it from its file.
#[derive(Debug)]
pub struct LookupTable {
    pub texture: Texture,
    pub upload: TextureWrite,
    /// What was read from the file: the bytes of the upload.
    pub contents: Vec<u8>,
    /// Where the file lies.
    pub path: String,
}

/// What a lookup table may be used for when shaders read and write it as storage.
pub open spec fn spec_storage_table_usage() -> TextureUsages {
    TextureUsages {
        copy_src: false,
        copy_dst: true,
        texture_binding: false,
        storage_binding: true,
        render_attachment: false,
    }
}

/// What a lookup table may be used for when shaders sample it.
pub open spec fn spec_sampled_table_usage() -> TextureUsages {
    TextureUsages {
        copy_src: false,
        copy_dst: true,
        texture_binding: true,
        storage_binding: false,
        render_attachment: false,
    }
}

/// The view of a whole texture that leaves every choice to the device.
pub open spec fn spec_default_view(texture: u64) -> TextureView {
    TextureView {
        texture,
        format: None,
        dimension: None,
        base_mip_level: 0,
        mip_level_count: None,
        base_array_layer: 0,
        array_layer_count: None,
    }
}

impl LookupTable {
    /// Whether this is the table of `width` texels of `format` named `label`,
    /// with identity `id`, filled by one packed row from the file at `path`.
    pub open spec fn spec_is(
        &self,
        id: u64,
        label: Seq<char>,
        path: Seq<char>,
        width: usize,
        format: TextureFormat,
        usage: TextureUsages,
    ) -> bool {
        &&& self.path@ == path
        &&& self.texture.spec_id() == id
        &&& self.texture.spec_ty() == TextureType::Texture1d
        &&& self.texture.spec_desc().label@ == label
        &&& self.texture.spec_desc().size == (Extent3d {
            width: width as u32,
            height: 1,
            depth_or_array_layers: 1,
        })
        &&& self.texture.spec_desc().mip_level_count == 1
        &&& self.texture.spec_desc().sample_count == 1
        &&& self.texture.spec_desc().dimension == TextureDimension::D1
        &&& self.texture.spec_desc().format == format
        &&& self.texture.spec_desc().usage == usage
        &&& self.texture.spec_desc().view_formats@ == Seq::<TextureFormat>::empty()
        &&& spec_block_copy_size(format) matches Some(bytes_per_pixel)
        &&& spec_upload(id, bytes_per_pixel, (width, 1usize, 1usize), (0usize, 0usize, 0usize), 0, None)
            == Ok::<TextureWrite, TextureError>(self.upload)
    }

    /// The table of `width` texels named `label` whose content lies at
    /// `path`: `contents` is what was read there, or `None` where the file
    /// could not be read, which is an error. Nothing is allocated on an error.
    pub fn load(
        gpu: &mut GpuContext,
        path: String,
        contents: Option<Vec<u8>>,
        label: &str,
        width: usize,
        format: TextureFormat,
        usage: TextureUsages,
    ) -> (table: Result<Self, TextureError>)
        requires
            old(gpu).has_room(1),
        ensures
            final(gpu).spec_float32_filterable() == old(gpu).spec_float32_filterable(),
            match table {
                Ok(t) => {
                    &&& t.spec_is(old(gpu).next_id(), label@, path@, width, format, usage)
                    &&& contents matches Some(bytes) && t.contents@ == bytes@
                    &&& final(gpu).next_id() == old(gpu).next_id() + 1
                },
                Err(e) => {
                    &&& spec_raw_upload(
                        old(gpu).next_id(),
                        contents is Some,
                        (width, 1usize, 1usize),
                        format,
                        TextureType::Texture1d,
                    ) == Err::<TextureWrite, TextureError>(e)
                    &&& final(gpu).next_id() == old(gpu).next_id()
                },
            },
            table is Ok == spec_raw_upload(
                old(gpu).next_id(),
                contents is Some,
                (width, 1usize, 1usize),
                format,
                TextureType::Texture1d,
            ) is Ok,
    {
        match Texture::load_named(
            gpu,
            String::from_str(label),
            contents,
            (width, 1, 1),
            format,
            usage,
            TextureType::Texture1d,
        ) {
            Ok(raw) => Ok(
                LookupTable { texture: raw.texture, upload: raw.write, contents: raw.contents, path },
            ),
            Err(e) => Err(e),
        }
    }
}

/// Texels of the table from wavelength to tristimulus values.
pub const WAVELENGTH_TABLE_WIDTH: usize = 471;

/// Texels of the table from color to spectral intensity.
pub const INTENSITY_TABLE_WIDTH: usize = 81;

/// Texels of each camera response curve.
pub const RESPONSE_TABLE_WIDTH: usize = 1024;

/// The two spectral tables that the path tracer reads.
#[derive(Debug)]
pub struct SpectrumBinding {
    pub wavelength_to_xyz: LookupTable,
    pub rgb_to_spectral_intensity: LookupTable,
    pub binding: Binding,
}

/// The entries of the binding set of the spectral tables, whose textures
/// have the identities `first` and `first + 1`.
pub open spec fn spec_spectrum_entries(first: u64) -> Seq<BindingEntry> {
    seq![
        spec_bind_storage_texture(
            spec_default_view(first),
            TextureFormat::Rgba32Float,
            TextureViewDimension::D1,
            StorageTextureAccess::ReadWrite,
        ),
        spec_bind_storage_texture(
            spec_default_view((first + 1) as u64),
            TextureFormat::Rgba32Float,
            TextureViewDimension::D1,
            StorageTextureAccess::ReadWrite,
        ),
    ]
}

impl SpectrumBinding {
    /// Whether these are the spectral tables made from identity `first` on.
    pub open spec fn spec_made_at(&self, first: u64) -> bool {
        self.spec_made_from(
            first,
            crate::util::spec_asset_dir() + "textures/spectrum/wavelength_to_xyz.bin"@,
            crate::util::spec_asset_dir() + "textures/spectrum/rgb_to_spectral_intensity.bin"@,
        )
    }

    /// Whether these are the spectral tables made from identity `first` on,
    /// with their content at the two paths.
    pub open spec fn spec_made_from(
        &self,
        first: u64,
        wavelength_path: Seq<char>,
        intensity_path: Seq<char>,
    ) -> bool {
        &&& self.wavelength_to_xyz.spec_is(
            first,
            "wavelength_to_xyz_texture"@,
            wavelength_path,
            WAVELENGTH_TABLE_WIDTH,
            TextureFormat::Rgba32Float,
            spec_storage_table_usage(),
        )
        &&& self.rgb_to_spectral_intensity.spec_is(
            (first + 1) as u64,
            "rgb_to_spectral_intensity_texture"@,
            intensity_path,
            INTENSITY_TABLE_WIDTH,
            TextureFormat::Rgba32Float,
            spec_storage_table_usage(),
        )
        &&& self.binding.wf()
        &&& self.binding.spec_bind_group_layout().id == first + 2
        &&& self.binding.spec_bind_group_layout().entries@ == spec_layout_of(
            spec_spectrum_entries(first),
        )
        &&& self.binding.spec_bind_group().id == first + 3
        &&& self.binding.spec_bind_group().entries@ == spec_group_of(spec_spectrum_entries(first))
    }

    /// The files of the two tables among the assets: that of the table from
    /// wavelength to tristimulus values, then that of the table from color
    /// to spectral intensity.
    pub fn files() -> (paths: (String, String))
        ensures
            paths.0@ == crate::util::spec_asset_dir()
                + "textures/spectrum/wavelength_to_xyz.bin"@,
            paths.1@ == crate::util::spec_asset_dir()
                + "textures/spectrum/rgb_to_spectral_intensity.bin"@,
    {
        proof {
            reveal_strlit("textures/spectrum/wavelength_to_xyz.bin");
            reveal_strlit("textures/spectrum/rgb_to_spectral_intensity.bin");
        }
        (
            asset_path("textures/spectrum/wavelength_to_xyz.bin"),
            asset_path("textures/spectrum/rgb_to_spectral_intensity.bin"),
        )
    }

    /// The two tables, filled with what was read from their files, and the
    /// binding set that shaders reach them through.
    pub fn new(gpu: &mut GpuContext, wavelength: Vec<u8>, intensity: Vec<u8>) -> (spectrum: Self)
        requires
            old(gpu).has_room(4),
        ensures
            spectrum.spec_made_at(old(gpu).next_id()),
            spectrum.wavelength_to_xyz.contents@ == wavelength@,
            spectrum.rgb_to_spectral_intensity.contents@ == intensity@,
            final(gpu).next_id() == old(gpu).next_id() + 4,
            final(gpu).spec_float32_filterable() == old(gpu).spec_float32_filterable(),
    {
        let (wavelength_path, intensity_path) = Self::files();
        Self::from_files(gpu, wavelength_path, intensity_path, wavelength, intensity)
    }

    /// The two tables, with their content at the two paths and read from
    /// there, and the binding set that shaders reach them through.
    pub fn from_files(
        gpu: &mut GpuContext,
        wavelength_path: String,
        intensity_path: String,
        wavelength: Vec<u8>,
        intensity: Vec<u8>,
    ) -> (spectrum: Self)
        requires
            old(gpu).has_room(4),
        ensures
            spectrum.spec_made_from(old(gpu).next_id(), wavelength_path@, intensity_path@),
            spectrum.wavelength_to_xyz.contents@ == wavelength@,
            spectrum.rgb_to_spectral_intensity.contents@ == intensity@,
            final(gpu).next_id() == old(gpu).next_id() + 4,
            final(gpu).spec_float32_filterable() == old(gpu).spec_float32_filterable(),
    {
        let usage = TextureUsages {
            copy_src: false,
            copy_dst: true,
            texture_binding: false,
            storage_binding: true,
            render_attachment: false,
        };
        let wavelength_to_xyz = match LookupTable::load(
            gpu,
            wavelength_path,
            Some(wavelength),
            "wavelength_to_xyz_texture",
            WAVELENGTH_TABLE_WIDTH,
            TextureFormat::Rgba32Float,
            usage,
        ) {
            Ok(table) => table,
            Err(_) => unreached(),
        };
        let rgb_to_spectral_intensity = match LookupTable::load(
            gpu,
            intensity_path,
            Some(intensity),
            "rgb_to_spectral_intensity_texture",
            INTENSITY_TABLE_WIDTH,
            TextureFormat::Rgba32Float,
            usage,
        ) {
            Ok(table) => table,
            Err(_) => unreached(),
        };
        let entries: [BindingEntry; 2] = [
            bind_storage_texture(
                wavelength_to_xyz.texture.default_view(),
                TextureFormat::Rgba32Float,
                TextureViewDimension::D1,
                StorageTextureAccess::ReadWrite,
            ),
            bind_storage_texture(
                rgb_to_spectral_intensity.texture.default_view(),
                TextureFormat::Rgba32Float,
                TextureViewDimension::D1,
                StorageTextureAccess::ReadWrite,
            ),
        ];
        assert(entries@ =~= spec_spectrum_entries(old(gpu).next_id()));
        let binding = Binding::new(gpu, entries.as_slice());
        SpectrumBinding { wavelength_to_xyz, rgb_to_spectral_intensity, binding }
    }
}

/// The response curves of the camera, one per channel, and their sampler.
#[derive(Debug)]
pub struct CameraResponseBinding {
    pub red: LookupTable,
    pub green: LookupTable,
    pub blue: LookupTable,
    pub sampler: Sampler,
    pub binding: Binding,
}

/// The entries of the binding set of the response curves, whose textures
/// have the identities from `first` on and whose sampler follows them.
pub open spec fn spec_response_entries(first: u64, float32_filterable: bool) -> Seq<BindingEntry> {
    seq![
        spec_bind_texture(
            spec_default_view(first),
            TextureSampleType::Float { filterable: float32_filterable },
            TextureViewDimension::D1,
        ),
        spec_bind_texture(
            spec_default_view((first + 1) as u64),
            TextureSampleType::Float { filterable: float32_filterable },
            TextureViewDimension::D1,
        ),
        spec_bind_texture(
            spec_default_view((first + 2) as u64),
            TextureSampleType::Float { filterable: float32_filterable },
            TextureViewDimension::D1,
        ),
        spec_bind_sampler((first + 3) as u64, SamplerBindingType::Filtering),
    ]
}

impl CameraResponseBinding {
    /// Whether these are the response curves made from identity `first` on.
    pub open spec fn spec_made_at(&self, first: u64, float32_filterable: bool) -> bool {
        &&& self.red.spec_is(
            first,
            "camera_response_red"@,
            crate::util::spec_asset_dir() + "textures/camera_response/Kodachrome-64CDRed.bin"@,
            RESPONSE_TABLE_WIDTH,
            TextureFormat::R32Float,
            spec_sampled_table_usage(),
        )
        &&& self.green.spec_is(
            (first + 1) as u64,
            "camera_response_green"@,
            crate::util::spec_asset_dir() + "textures/camera_response/Kodachrome-64CDGreen.bin"@,
            RESPONSE_TABLE_WIDTH,
            TextureFormat::R32Float,
            spec_sampled_table_usage(),
        )
        &&& self.blue.spec_is(
            (first + 2) as u64,
            "camera_response_blue"@,
            crate::util::spec_asset_dir() + "textures/camera_response/Kodachrome-64CDBlue.bin"@,
            RESPONSE_TABLE_WIDTH,
            TextureFormat::R32Float,
            spec_sampled_table_usage(),
        )
        &&& self.sampler.id == first + 3
        &&& self.sampler.label@ == "camera_response_sampler"@
        &&& self.sampler.mag_filter == FilterMode::Linear
        &&& self.sampler.min_filter == FilterMode::Linear
        &&& self.binding.wf()
        &&& self.binding.spec_bind_group_layout().id == first + 4
        &&& self.binding.spec_bind_group_layout().entries@ == spec_layout_of(
            spec_response_entries(first, float32_filterable),
        )
        &&& self.binding.spec_bind_group().id == first + 5
        &&& self.binding.spec_bind_group().entries@ == spec_group_of(
            spec_response_entries(first, float32_filterable),
        )
    }

    /// The curve of one channel, from the file `file` among the response curves.
    fn curve(gpu: &mut GpuContext, path: String, contents: Vec<u8>, label: &str) -> (table:
        LookupTable)
        requires
            old(gpu).has_room(1),
        ensures
            table.contents@ == contents@,
            table.spec_is(
                old(gpu).next_id(),
                label@,
                path@,
                RESPONSE_TABLE_WIDTH,
                TextureFormat::R32Float,
                spec_sampled_table_usage(),
            ),
            final(gpu).next_id() == old(gpu).next_id() + 1,
            final(gpu).spec_float32_filterable() == old(gpu).spec_float32_filterable(),
    {
        let usage = TextureUsages {
            copy_src: false,
            copy_dst: true,
            texture_binding: true,
            storage_binding: false,
            render_attachment: false,
        };
        match LookupTable::load(
            gpu,
            path,
            Some(contents),
            label,
            RESPONSE_TABLE_WIDTH,
            TextureFormat::R32Float,
            usage,
        ) {
            Ok(table) => table,
            Err(_) => unreached(),
        }
    }

    /// The files of the three curves among the assets: red, green, blue.
    pub fn files() -> (paths: (String, String, String))
        ensures
            paths.0@ == crate::util::spec_asset_dir()
                + "textures/camera_response/Kodachrome-64CDRed.bin"@,
            paths.1@ == crate::util::spec_asset_dir()
                + "textures/camera_response/Kodachrome-64CDGreen.bin"@,
            paths.2@ == crate::util::spec_asset_dir()
                + "textures/camera_response/Kodachrome-64CDBlue.bin"@,
    {
        proof {
            reveal_strlit("textures/camera_response/Kodachrome-64CDRed.bin");
            reveal_strlit("textures/camera_response/Kodachrome-64CDGreen.bin");
            reveal_strlit("textures/camera_response/Kodachrome-64CDBlue.bin");
        }
        (
            asset_path("textures/camera_response/Kodachrome-64CDRed.bin"),
            asset_path("textures/camera_response/Kodachrome-64CDGreen.bin"),
            asset_path("textures/camera_response/Kodachrome-64CDBlue.bin"),
        )
    }

    /// The three curves, filled with what was read from their files, their
    /// sampler and the binding set that shaders reach them through.
    pub fn new(gpu: &mut GpuContext, red: Vec<u8>, green: Vec<u8>, blue: Vec<u8>) -> (response:
        Self)
        requires
            old(gpu).has_room(6),
        ensures
            response.red.contents@ == red@,
            response.green.contents@ == green@,
            response.blue.contents@ == blue@,
            response.spec_made_at(old(gpu).next_id(), old(gpu).spec_float32_filterable()),
            final(gpu).next_id() == old(gpu).next_id() + 6,
            final(gpu).spec_float32_filterable() == old(gpu).spec_float32_filterable(),
    {
        let (red_path, green_path, blue_path) = Self::files();
        let red_table = Self::curve(gpu, red_path, red, "camera_response_red");
        let green_table = Self::curve(gpu, green_path, green, "camera_response_green");
        let blue_table = Self::curve(gpu, blue_path, blue, "camera_response_blue");
        let sampler = Sampler::new(
            gpu,
            "camera_response_sampler",
            FilterMode::Linear,
            FilterMode::Linear,
        );
        let sample_type = match TextureFormat::R32Float.sample_type(gpu.float32_filterable()) {
            Some(sample_type) => sample_type,
            None => unreached(),
        };
        let entries: [BindingEntry; 4] = [
            bind_texture(red_table.texture.default_view(), sample_type, TextureViewDimension::D1),
            bind_texture(green_table.texture.default_view(), sample_type, TextureViewDimension::D1),
            bind_texture(blue_table.texture.default_view(), sample_type, TextureViewDimension::D1),
            bind_sampler(sampler.id, SamplerBindingType::Filtering),
        ];
        assert(entries@ =~= spec_response_entries(
            old(gpu).next_id(),
            old(gpu).spec_float32_filterable(),
        ));
        let binding = Binding::new(gpu, entries.as_slice());
        CameraResponseBinding {
            red: red_table,
            green: green_table,
            blue: blue_table,
            sampler,
            binding,
        }
    }
}

} // verus!
