//! The host side of the pipeline: submission of display lists with strictly
//! increasing epochs, a timing record for every frame asked of the renderer,
//! the window title, scroll layer ids and the cache of registered images.
use crate::scene::{DeviceSize, DisplayListBuilder, ImageKey, PipelineId};
use crate::timing::{now_ns, pending, TimingChannel};
use vstd::prelude::*;
use vstd::string::StringExecFns;

verus! {

/// A colour with 8 bits per channel.
#[derive(Clone, Copy, Debug, PartialEq, Eq, Structural)]
pub struct Rgba8 {
    pub r: u8,
    pub g: u8,
    pub b: u8,
    pub a: u8,
}

/// The background colour of every submitted frame: opaque white.
pub open spec fn white() -> Rgba8 {
    Rgba8 { r: 255, g: 255, b: 255, a: 255 }
}

/// How captured frames are written.
#[derive(Clone, Copy, Debug, PartialEq, Eq, Structural)]
pub enum SaveType {
    Yaml,
    Json,
}

/// The directory that captured frames of a save type are written to.
pub open spec fn recording_directory_spec(save_type: SaveType) -> Seq<char> {
    match save_type {
        SaveType::Yaml => "yaml_frames"@,
        SaveType::Json => "json_frames"@,
    }
}

pub fn recording_directory(save_type: SaveType) -> (r: String)
    ensures
        r@ == recording_directory_spec(save_type),
{
    match save_type {
        SaveType::Yaml => String::from_str("yaml_frames"),
        SaveType::Json => String::from_str("json_frames"),
    }
}

/// The renderer's options, fixed when it is built. The device pixel ratio
/// is handed to the renderer beside them.
#[derive(Debug)]
pub struct RendererOptions {
    pub resource_override_path: Option<String>,
    pub enable_aa: bool,
    pub enable_profiler: bool,
    pub enable_recording: bool,
    pub enable_scrollbars: bool,
    pub enable_subpixel_aa: bool,
    pub debug: bool,
    pub precache_shaders: bool,
    pub clear_framebuffer: bool,
    pub clear_color: Rgba8,
    pub render_target_debug: bool,
}

/// The options a host runs the renderer with: recording exactly when a save
/// type is given, subpixel anti-aliasing and debugging as asked, a white
/// clear colour, and every other feature off.
pub fn renderer_options(
    shader_override_path: Option<String>,
    save_type: Option<SaveType>,
    subpixel_aa: bool,
    debug: bool,
) -> (r: RendererOptions)
    ensures
        r.resource_override_path == shader_override_path,
        r.enable_recording == save_type.is_some(),
        r.enable_subpixel_aa == subpixel_aa,
        r.debug == debug,
        r.clear_color == white(),
        r.clear_framebuffer,
        !r.enable_aa,
        !r.enable_profiler,
        !r.enable_scrollbars,
        !r.precache_shaders,
        !r.render_target_debug,
{
    RendererOptions {
        resource_override_path: shader_override_path,
        enable_aa: false,
        enable_profiler: false,
        enable_recording: save_type.is_some(),
        enable_scrollbars: false,
        enable_subpixel_aa: subpixel_aa,
        debug,
        precache_shaders: false,
        clear_framebuffer: true,
        clear_color: Rgba8 { r: 255, g: 255, b: 255, a: 255 },
        render_target_debug: false,
    }
}

/// Names one scroll layer of a pipeline.
#[derive(Clone, Copy, Debug, PartialEq, Eq, Structural)]
pub struct ScrollLayerId {
    pub pipeline_id: PipelineId,
    pub index: usize,
    pub scroll_root: usize,
}

/// What the renderer is to be handed for one frame.
pub struct Submission {
    pub background: Option<Rgba8>,
    pub epoch: u32,
    pub viewport: DeviceSize,
    pub display_list: DisplayListBuilder,
}

#[derive(Clone, Copy, Debug, PartialEq, Eq, Structural)]
pub enum SubmitError {
    /// The epoch does not exceed the last one submitted.
    StaleEpoch { last: u32, given: u32 },
}

/// Pixel layouts that decoded images come in.
#[derive(Clone, Copy, Debug, PartialEq, Eq, Structural)]
pub enum PixelLayout {
    Luma8,
    Rgb8,
    Rgba8,
    Other,
}

/// Formats the renderer takes images in.
#[derive(Clone, Copy, Debug, PartialEq, Eq, Structural)]
pub enum ImageFormat {
    A8,
    RGB8,
    RGBA8,
}

/// A registered image: its key and its size.
#[derive(Clone, Copy, Debug, PartialEq, Eq, Structural)]
pub struct ImageEntry {
    pub key: ImageKey,
    pub size: DeviceSize,
}

/// The renderer format for a pixel layout, where there is one.
pub open spec fn format_for_spec(layout: PixelLayout) -> Option<ImageFormat> {
    match layout {
        PixelLayout::Luma8 => Some(ImageFormat::A8),
        PixelLayout::Rgb8 => Some(ImageFormat::RGB8),
        PixelLayout::Rgba8 => Some(ImageFormat::RGBA8),
        PixelLayout::Other => None,
    }
}

pub fn format_for(layout: PixelLayout) -> (r: Option<ImageFormat>)
    ensures
        r == format_for_spec(layout),
{
    match layout {
        PixelLayout::Luma8 => Some(ImageFormat::A8),
        PixelLayout::Rgb8 => Some(ImageFormat::RGB8),
        PixelLayout::Rgba8 => Some(ImageFormat::RGBA8),
        PixelLayout::Other => None,
    }
}

/// Whether epoch `given` may follow the last submitted one: it must be
/// strictly greater, not necessarily the next integer.
pub open spec fn accepts_epoch(last: Option<u32>, given: u32) -> bool {
    match last {
        Some(l) => l < given,
        None => true,
    }
}

/// A run of strictly increasing epochs is accepted whole, one submission
/// after the other, from a host that has submitted nothing yet; resubmitting
/// any of them afterwards is refused.
pub proof fn lemma_increasing_epochs_accepted(epochs: Seq<u32>)
    requires
        forall|i: int, j: int| 0 <= i < j < epochs.len() ==> epochs[i] < epochs[j],
    ensures
        epochs.len() > 0 ==> accepts_epoch(None, epochs[0]),
        forall|i: int| 0 < i < epochs.len() ==> #[trigger] accepts_epoch(Some(epochs[i - 1]), epochs[i]),
        forall|i: int| 0 <= i < epochs.len() ==> !accepts_epoch(Some(epochs.last()), epochs[i]),
{
    assert forall|i: int| 0 <= i < epochs.len() implies !accepts_epoch(
        Some(epochs.last()),
        epochs[i],
    ) by {
        if i < epochs.len() - 1 {
            assert(epochs[i] < epochs[epochs.len() - 1]);
        }
    }
}

/// The window title for `extra`, the pixel ratio as text and the GL
/// renderer and version strings.
pub open spec fn title_spec(extra: Seq<char>, ratio: Seq<char>, renderer: Seq<char>, version: Seq<
    char,
>) -> Seq<char> {
    "Wrench: "@ + extra + " ("@ + ratio + "x) - "@ + renderer + " - "@ + version
}

/// The entry cached under `path` in `map`, the last one where there are
/// several.
pub open spec fn cached_spec(map: Seq<(String, ImageEntry)>, path: Seq<char>) -> Option<ImageEntry>
    decreases map.len(),
{
    if map.len() == 0 {
        None
    } else if map.last().0@ == path {
        Some(map.last().1)
    } else {
        cached_spec(map.drop_last(), path)
    }
}

/// The host's side of the pipeline: what it last submitted, the timing
/// records of frames it asked for, and its window's state.
pub struct Wrench {
    pub window_size: DeviceSize,
    /// The device pixel ratio, as it is shown in the title.
    pub device_pixel_ratio: String,
    pub root_pipeline_id: PipelineId,
    pub window_title_to_set: Option<String>,
    pub image_map: Vec<(String, ImageEntry)>,
    pub next_scroll_layer_id: usize,
    pub gl_renderer: String,
    pub gl_version: String,
    pub rebuild_display_lists: bool,
    pub verbose: bool,
    /// Timing records of frames asked of the renderer and not yet notified.
    pub frame_start_sender: TimingChannel,
    /// The epoch of the last submitted display list.
    pub last_epoch: Option<u32>,
}

impl Wrench {
    pub open spec fn title_for(&self, extra: Seq<char>) -> Seq<char> {
        title_spec(extra, self.device_pixel_ratio@, self.gl_renderer@, self.gl_version@)
    }

    /// A host titled "start", with root pipeline (0, 0) and one timing record
    /// pending for the frame that the renderer draws on its own at start.
    pub fn new(
        size: DeviceSize,
        device_pixel_ratio: String,
        gl_renderer: String,
        gl_version: String,
        do_rebuild: bool,
        verbose: bool,
    ) -> (r: Wrench)
        ensures
            r.window_size == size,
            r.device_pixel_ratio == device_pixel_ratio,
            r.gl_renderer == gl_renderer,
            r.gl_version == gl_version,
            r.rebuild_display_lists == do_rebuild,
            r.verbose == verbose,
            r.root_pipeline_id == PipelineId(0, 0),
            r.next_scroll_layer_id == 0,
            r.image_map@.len() == 0,
            r.last_epoch.is_none(),
            r.window_title_to_set.is_some(),
            r.window_title_to_set.unwrap()@ == r.title_for("start"@),
            pending(r.frame_start_sender).len() == 1,
    {
        let mut wrench = Wrench {
            window_size: size,
            device_pixel_ratio,
            root_pipeline_id: PipelineId(0, 0),
            window_title_to_set: None,
            image_map: Vec::new(),
            next_scroll_layer_id: 0,
            gl_renderer,
            gl_version,
            rebuild_display_lists: do_rebuild,
            verbose,
            frame_start_sender: TimingChannel::new(),
            last_epoch: None,
        };
        wrench.set_title("start");
        wrench.begin_frame();
        wrench
    }

    /// Sets the title that the window is to take next.
    pub fn set_title(&mut self, extra: &str)
        ensures
            final(self).window_title_to_set.is_some(),
            final(self).window_title_to_set.unwrap()@ == old(self).title_for(extra@),
            final(self).window_size == old(self).window_size,
            final(self).device_pixel_ratio == old(self).device_pixel_ratio,
            final(self).gl_renderer == old(self).gl_renderer,
            final(self).gl_version == old(self).gl_version,
            final(self).root_pipeline_id == old(self).root_pipeline_id,
            final(self).image_map == old(self).image_map,
            final(self).next_scroll_layer_id == old(self).next_scroll_layer_id,
            final(self).rebuild_display_lists == old(self).rebuild_display_lists,
            final(self).verbose == old(self).verbose,
            final(self).frame_start_sender == old(self).frame_start_sender,
            final(self).last_epoch == old(self).last_epoch,
    {
        let mut title = String::from_str("Wrench: ");
        title.append(extra);
        title.append(" (");
        title.append(self.device_pixel_ratio.as_str());
        title.append("x) - ");
        title.append(self.gl_renderer.as_str());
        title.append(" - ");
        title.append(self.gl_version.as_str());
        self.window_title_to_set = Some(title);
    }

    /// Hands out the pending title, leaving none.
    pub fn take_title(&mut self) -> (r: Option<String>)
        ensures
            r == old(self).window_title_to_set,
            final(self).window_title_to_set.is_none(),
            final(self).window_size == old(self).window_size,
            final(self).frame_start_sender == old(self).frame_start_sender,
            final(self).last_epoch == old(self).last_epoch,
            final(self).next_scroll_layer_id == old(self).next_scroll_layer_id,
    {
        self.window_title_to_set.take()
    }

    pub fn should_rebuild_display_lists(&self) -> (r: bool)
        ensures
            r == self.rebuild_display_lists,
    {
        self.rebuild_display_lists
    }

    /// A fresh scroll layer id of the root pipeline.
    pub fn next_scroll_layer_id(&mut self) -> (r: ScrollLayerId)
        requires
            old(self).next_scroll_layer_id < usize::MAX,
        ensures
            r == (ScrollLayerId {
                pipeline_id: old(self).root_pipeline_id,
                index: 0,
                scroll_root: old(self).next_scroll_layer_id,
            }),
            final(self).next_scroll_layer_id == old(self).next_scroll_layer_id + 1,
            final(self).root_pipeline_id == old(self).root_pipeline_id,
            final(self).window_size == old(self).window_size,
            final(self).frame_start_sender == old(self).frame_start_sender,
            final(self).last_epoch == old(self).last_epoch,
    {
        let scroll_root = self.next_scroll_layer_id;
        self.next_scroll_layer_id = self.next_scroll_layer_id + 1;
        ScrollLayerId { pipeline_id: self.root_pipeline_id, index: 0, scroll_root }
    }

    /// The image registered for `path`, if there is one.
    pub fn cached_image(&self, path: &str) -> (r: Option<ImageEntry>)
        ensures
            r == cached_spec(self.image_map@, path@),
    {
        let wanted = String::from_str(path);
        let mut i: usize = self.image_map.len();
        assert(self.image_map@.subrange(0, i as int) =~= self.image_map@);
        while i > 0
            invariant
                i <= self.image_map@.len(),
                wanted@ == path@,
                cached_spec(self.image_map@, path@) == cached_spec(
                    self.image_map@.subrange(0, i as int),
                    path@,
                ),
            decreases i,
        {
            let ghost prefix = self.image_map@.subrange(0, i as int);
            assert(prefix.drop_last() =~= self.image_map@.subrange(0, i - 1));
            assert(prefix.last() == self.image_map@[i - 1]);
            if self.image_map[i - 1].0 == wanted {
                return Some(self.image_map[i - 1].1);
            }
            i = i - 1;
        }
        assert(self.image_map@.subrange(0, 0) =~= Seq::<(String, ImageEntry)>::empty());
        None
    }

    /// Records the image registered for `path`; later lookups of `path` find
    /// this entry.
    pub fn cache_image(&mut self, path: String, entry: ImageEntry)
        ensures
            final(self).image_map@ == old(self).image_map@.push((path, entry)),
            cached_spec(final(self).image_map@, path@) == Some(entry),
            final(self).window_size == old(self).window_size,
            final(self).frame_start_sender == old(self).frame_start_sender,
            final(self).last_epoch == old(self).last_epoch,
    {
        self.image_map.push((path, entry));
    }

    /// Takes the window's new size; answers whether it changed, in which case
    /// the viewport is to be reset.
    pub fn update(&mut self, dim: DeviceSize) -> (changed: bool)
        ensures
            changed == (dim != old(self).window_size),
            final(self).window_size == dim,
            final(self).frame_start_sender == old(self).frame_start_sender,
            final(self).last_epoch == old(self).last_epoch,
            final(self).next_scroll_layer_id == old(self).next_scroll_layer_id,
    {
        let changed = dim != self.window_size;
        if changed {
            self.window_size = dim;
        }
        changed
    }

    /// Stamps the start of a frame: one timing record joins the channel.
    pub fn begin_frame(&mut self)
        ensures
            pending(final(self).frame_start_sender).len() == pending(old(self).frame_start_sender).len() + 1,
            pending(final(self).frame_start_sender).drop_last() == pending(old(self).frame_start_sender),
            final(self).window_size == old(self).window_size,
            final(self).device_pixel_ratio == old(self).device_pixel_ratio,
            final(self).gl_renderer == old(self).gl_renderer,
            final(self).gl_version == old(self).gl_version,
            final(self).window_title_to_set == old(self).window_title_to_set,
            final(self).root_pipeline_id == old(self).root_pipeline_id,
            final(self).image_map == old(self).image_map,
            final(self).next_scroll_layer_id == old(self).next_scroll_layer_id,
            final(self).rebuild_display_lists == old(self).rebuild_display_lists,
            final(self).verbose == old(self).verbose,
            final(self).last_epoch == old(self).last_epoch,
    {
        let now = now_ns();
        self.frame_start_sender.push(now);
        assert(pending(self.frame_start_sender).drop_last() =~= pending(old(self).frame_start_sender));
    }

    /// Submits a display list under epoch `frame_number`, with a white
    /// background over the whole window. The epoch must exceed the last one
    /// submitted (gaps are fine); otherwise nothing changes.
    pub fn send_lists(&mut self, frame_number: u32, display_list: DisplayListBuilder) -> (r: Result<
        Submission,
        SubmitError,
    >)
        ensures
            match old(self).last_epoch {
                Some(last) => frame_number <= last ==> r == Err::<Submission, SubmitError>(
                    SubmitError::StaleEpoch { last, given: frame_number },
                ),
                None => true,
            },
            r is Ok <==> accepts_epoch(old(self).last_epoch, frame_number),
            r is Ok ==> {
                &&& r->Ok_0.epoch == frame_number
                &&& r->Ok_0.background == Some(white())
                &&& r->Ok_0.viewport == old(self).window_size
                &&& r->Ok_0.display_list == display_list
                &&& final(self).last_epoch == Some(frame_number)
                &&& pending(final(self).frame_start_sender).len() == pending(
                    old(self).frame_start_sender,
                ).len() + 1
                &&& pending(final(self).frame_start_sender).drop_last() == pending(
                    old(self).frame_start_sender,
                )
            },
            r is Err ==> final(self).last_epoch == old(self).last_epoch,
            r is Err ==> final(self).frame_start_sender == old(self).frame_start_sender,
            final(self).window_size == old(self).window_size,
            final(self).root_pipeline_id == old(self).root_pipeline_id,
            final(self).next_scroll_layer_id == old(self).next_scroll_layer_id,
    {
        match self.last_epoch {
            Some(last) => {
                if frame_number <= last {
                    return Err(SubmitError::StaleEpoch { last, given: frame_number });
                }
            },
            None => {},
        }
        self.begin_frame();
        self.last_epoch = Some(frame_number);
        Ok(
            Submission {
                background: Some(Rgba8 { r: 255, g: 255, b: 255, a: 255 }),
                epoch: frame_number,
                viewport: self.window_size,
                display_list,
            },
        )
    }

    /// Asks for the current display list to be drawn again: a frame as far
    /// as timing goes, so it stamps one record.
    pub fn refresh(&mut self)
        ensures
            pending(final(self).frame_start_sender).len() == pending(old(self).frame_start_sender).len() + 1,
            pending(final(self).frame_start_sender).drop_last() == pending(old(self).frame_start_sender),
            final(self).window_size == old(self).window_size,
            final(self).last_epoch == old(self).last_epoch,
            final(self).next_scroll_layer_id == old(self).next_scroll_layer_id,
    {
        self.begin_frame();
    }
}

} // verus!
