use vstd::prelude::*;

use crate::directx::{check_err, D3DError};
use crate::pixels::{byte_at, extract_rows, img_byte, rgba_bytes, rgba_height, rgba_width, PixelImage};

verus! {

/// Usage class of a texture that only the CPU reads and writes.
pub const USAGE_STAGING: u32 = 3;

/// CPU may write the mapped texture.
pub const CPU_ACCESS_WRITE: u32 = 0x10000;

/// CPU may read the mapped texture.
pub const CPU_ACCESS_READ: u32 = 0x20000;

/// The 4-channel, 8-bit-per-channel unsigned-normalised pixel format.
pub const FORMAT_R8G8B8A8_UNORM: u32 = 28;

/// Description of a 2D texture, as the graphics API reports and takes it.
#[derive(Debug, Clone, Copy, PartialEq, Eq, Structural)]
pub struct TextureDesc {
    pub width: u32,
    pub height: u32,
    pub mip_levels: u32,
    pub array_size: u32,
    pub format: u32,
    pub sample_count: u32,
    pub sample_quality: u32,
    pub usage: u32,
    pub bind_flags: u32,
    pub cpu_access_flags: u32,
    pub misc_flags: u32,
}

/// The description of the staging texture that receives copies of `src`:
/// same geometry, RGBA 8-bit, bound to nothing on the GPU, mapped by the CPU
/// for reading and writing.
pub open spec fn spec_staging_desc(src: TextureDesc) -> TextureDesc {
    TextureDesc {
        format: FORMAT_R8G8B8A8_UNORM,
        usage: USAGE_STAGING,
        bind_flags: 0,
        cpu_access_flags: CPU_ACCESS_READ | CPU_ACCESS_WRITE,
        ..src
    }
}

/// Derives the staging texture's description from the source texture's.
pub fn staging_desc(src: &TextureDesc) -> (r: TextureDesc)
    ensures
        r == spec_staging_desc(*src),
{
    TextureDesc {
        format: FORMAT_R8G8B8A8_UNORM,
        usage: USAGE_STAGING,
        bind_flags: 0,
        cpu_access_flags: CPU_ACCESS_READ | CPU_ACCESS_WRITE,
        ..*src
    }
}

/// One release call of a mirror texture's teardown.
#[derive(Debug, Clone, Copy, PartialEq, Eq, Structural)]
pub enum ReleaseStep {
    /// Release of the locally created staging texture.
    StagingTexture,
    /// Release of the resource interface taken from the view.
    Resource,
    /// The compositor's own release of the view it handed out.
    ResourceView,
}

/// Who owns what in one eye's chain of native objects: the compositor's
/// view and the resource taken from it come together; the staging texture is
/// created afterwards and may be missing if its creation failed.
#[derive(Debug)]
pub struct TextureChain {
    held: bool,
    staging: bool,
    captures: u64,
}

impl TextureChain {
    /// The view and its resource are still owned.
    pub closed spec fn holds_view(&self) -> bool {
        self.held
    }

    /// The staging texture exists and is owned.
    pub closed spec fn has_staging(&self) -> bool {
        self.staging
    }

    /// How many captures were made through the chain.
    pub closed spec fn capture_count(&self) -> nat {
        self.captures as nat
    }

    /// The chain that release leaves behind: nothing owned.
    pub closed spec fn spec_released(&self) -> TextureChain {
        TextureChain { held: false, staging: false, captures: self.captures }
    }

    /// A chain whose view and resource were just obtained.
    pub fn acquired() -> (r: TextureChain)
        ensures
            r.holds_view(),
            !r.has_staging(),
            r.capture_count() == 0,
    {
        TextureChain { held: true, staging: false, captures: 0 }
    }

    /// Records that the staging texture was created.
    pub fn staging_created(&mut self)
        requires
            old(self).holds_view(),
        ensures
            final(self).holds_view(),
            final(self).has_staging(),
            final(self).capture_count() == old(self).capture_count(),
    {
        self.staging = true;
    }

    /// Whether a capture may go through the chain now.
    pub fn can_capture(&self) -> (r: bool)
        ensures
            r == (self.holds_view() && self.has_staging()),
    {
        self.held && self.staging
    }

    /// Records one capture; the count saturates.
    pub fn record_capture(&mut self)
        requires
            old(self).holds_view(),
            old(self).has_staging(),
        ensures
            final(self).holds_view(),
            final(self).has_staging(),
            final(self).capture_count() == if old(self).capture_count() < u64::MAX {
                old(self).capture_count() + 1
            } else {
                old(self).capture_count()
            },
    {
        if self.captures < u64::MAX {
            self.captures = self.captures + 1;
        }
    }

    /// The release calls still owed, in the order they must be made.
    pub fn release(&mut self) -> (steps: Vec<ReleaseStep>)
        ensures
            steps@ == release_steps(*old(self)),
            *final(self) == old(self).spec_released(),
            !final(self).holds_view(),
            !final(self).has_staging(),
    {
        let mut steps: Vec<ReleaseStep> = Vec::new();
        if self.held {
            if self.staging {
                steps.push(ReleaseStep::StagingTexture);
            }
            steps.push(ReleaseStep::Resource);
            steps.push(ReleaseStep::ResourceView);
        }
        self.held = false;
        self.staging = false;
        proof {
            if old(self).holds_view() {
                if old(self).has_staging() {
                    assert(steps@ =~= seq![
                        ReleaseStep::StagingTexture,
                        ReleaseStep::Resource,
                        ReleaseStep::ResourceView,
                    ]);
                } else {
                    assert(steps@ =~= seq![ReleaseStep::Resource, ReleaseStep::ResourceView]);
                }
            } else {
                assert(steps@ =~= Seq::<ReleaseStep>::empty());
            }
        }
        steps
    }
}

/// The release calls that a chain in state `c` still owes, in order: the
/// staging texture (if any), then the resource, then the compositor's view.
pub open spec fn release_steps(c: TextureChain) -> Seq<ReleaseStep> {
    if !c.holds_view() {
        Seq::empty()
    } else if c.has_staging() {
        seq![ReleaseStep::StagingTexture, ReleaseStep::Resource, ReleaseStep::ResourceView]
    } else {
        seq![ReleaseStep::Resource, ReleaseStep::ResourceView]
    }
}

/// How often `step` occurs in `steps`.
pub open spec fn occurrences(steps: Seq<ReleaseStep>, step: ReleaseStep) -> nat {
    steps.filter(|s: ReleaseStep| s == step).len()
}

/// Teardown of a chain that owns its view, captured or not: the resource is
/// released and then the view, each exactly once, the staging texture (if
/// it was made) once before both; a second release finds nothing to do.
pub proof fn lemma_release_once(c: TextureChain)
    requires
        c.holds_view(),
    ensures
        ({
            let s = release_steps(c);
            &&& occurrences(s, ReleaseStep::Resource) == 1
            &&& occurrences(s, ReleaseStep::ResourceView) == 1
            &&& occurrences(s, ReleaseStep::StagingTexture) == (if c.has_staging() {
                1nat
            } else {
                0nat
            })
            &&& s[s.len() - 2] == ReleaseStep::Resource
            &&& s[s.len() - 1] == ReleaseStep::ResourceView
        }),
        release_steps(c.spec_released()).len() == 0,
{
    let s = release_steps(c);
    reveal_with_fuel(Seq::filter, 4);
    if c.has_staging() {
        assert(s.drop_last().drop_last().drop_last() =~= Seq::<ReleaseStep>::empty());
        assert(s.drop_last().drop_last() =~= seq![ReleaseStep::StagingTexture]);
        assert(s.drop_last() =~= seq![ReleaseStep::StagingTexture, ReleaseStep::Resource]);
    } else {
        assert(s.drop_last().drop_last() =~= Seq::<ReleaseStep>::empty());
        assert(s.drop_last() =~= seq![ReleaseStep::Resource]);
    }
}

/// Reads a captured frame out of the mapped staging texture. `map_status` is
/// the status of the map call; on failure no image is produced. Otherwise
/// the first `width * 4` bytes of each of the `height` mapped rows, which lie
/// `row_pitch` bytes apart, make up the image.
pub fn read_mapped(map_status: i32, data: &[u8], row_pitch: usize, width: u32, height: u32) -> (r:
    Result<PixelImage, D3DError>)
    requires
        map_status >= 0 ==> width as int * 4 <= row_pitch,
        map_status >= 0 ==> data@.len() == row_pitch as int * height as int,
    ensures
        r is Ok <==> map_status >= 0,
        r matches Err(e) ==> e == D3DError(map_status),
        r matches Ok(img) ==> {
            &&& rgba_width(img) == width
            &&& rgba_height(img) == height
            &&& rgba_bytes(img).len() == width as int * height as int * 4
            &&& forall|y: int, j: int|
                0 <= y < height && 0 <= j < width as int * 4 ==> #[trigger] img_byte(img, y, j)
                    == byte_at(data@, row_pitch as int, y, j)
        },
{
    match check_err(map_status) {
        Err(e) => Err(e),
        Ok(()) => Ok(extract_rows(data, row_pitch, width, height)),
    }
}

} // verus!
