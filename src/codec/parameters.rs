use std::rc::Rc;

use vstd::prelude::*;

use crate::error::Error;
use crate::media::Type;

verus! {

/// Profile and level value of a block whose codec does not define one.
pub const UNKNOWN_PROFILE: i32 = -99;

/// Pixel or sample format value of a block with no format set.
pub const NO_FORMAT: i32 = -1;

/// The codec-parameter block a descriptor reads: every field the engine keeps,
/// as plain values.
pub struct Block {
    pub medium: Type,
    pub codec_id: u32,
    pub profile: i32,
    pub level: i32,
    pub bit_rate: usize,
    pub extradata: Option<Vec<u8>>,
    pub format: i32,
    pub width: u32,
    pub height: u32,
    pub sample_rate: u32,
    pub channel_layout: u64,
    pub channels: u16,
}

/// The mathematical value of a block: its fields, with the extra bytes as a sequence.
pub ghost struct BlockView {
    pub medium: Type,
    pub codec_id: u32,
    pub profile: i32,
    pub level: i32,
    pub bit_rate: usize,
    pub extradata: Option<Seq<u8>>,
    pub format: i32,
    pub width: u32,
    pub height: u32,
    pub sample_rate: u32,
    pub channel_layout: u64,
    pub channels: u16,
}

impl View for Block {
    type V = BlockView;

    open spec fn view(&self) -> BlockView {
        BlockView {
            medium: self.medium,
            codec_id: self.codec_id,
            profile: self.profile,
            level: self.level,
            bit_rate: self.bit_rate,
            extradata: match self.extradata {
                Some(v) => Some(v@),
                None => None,
            },
            format: self.format,
            width: self.width,
            height: self.height,
            sample_rate: self.sample_rate,
            channel_layout: self.channel_layout,
            channels: self.channels,
        }
    }
}

/// The block of a freshly allocated descriptor.
pub open spec fn default_block() -> BlockView {
    BlockView {
        medium: Type::Unknown,
        codec_id: 0,
        profile: UNKNOWN_PROFILE,
        level: UNKNOWN_PROFILE,
        bit_rate: 0,
        extradata: None,
        format: NO_FORMAT,
        width: 0,
        height: 0,
        sample_rate: 0,
        channel_layout: 0,
        channels: 0,
    }
}

impl BlockView {
    /// This block with its medium tag replaced.
    pub open spec fn with_medium(self, medium: Type) -> BlockView {
        BlockView { medium, ..self }
    }
}

impl Block {
    /// A block with every field at its default.
    pub fn new() -> (b: Block)
        ensures
            b@ == default_block(),
    {
        Block {
            medium: Type::Unknown,
            codec_id: 0,
            profile: UNKNOWN_PROFILE,
            level: UNKNOWN_PROFILE,
            bit_rate: 0,
            extradata: None,
            format: NO_FORMAT,
            width: 0,
            height: 0,
            sample_rate: 0,
            channel_layout: 0,
            channels: 0,
        }
    }

    /// A field-by-field deep copy of this block.
    pub fn copy(&self) -> (b: Block)
        ensures
            b@ == self@,
    {
        let extradata = match &self.extradata {
            Some(v) => {
                let mut w: Vec<u8> = Vec::new();
                let mut i: usize = 0;
                while i < v.len()
                    invariant
                        i <= v.len(),
                        w@ == v@.subrange(0, i as int),
                    decreases v.len() - i,
                {
                    w.push(v[i]);
                    i = i + 1;
                }
                assert(w@ == v@);
                Some(w)
            },
            None => None,
        };
        Block {
            medium: self.medium,
            codec_id: self.codec_id,
            profile: self.profile,
            level: self.level,
            bit_rate: self.bit_rate,
            extradata,
            format: self.format,
            width: self.width,
            height: self.height,
            sample_rate: self.sample_rate,
            channel_layout: self.channel_layout,
            channels: self.channels,
        }
    }
}

/// A shared owner of a borrowed descriptor, such as the stream or container the
/// descriptor was taken from; each borrowed descriptor holds one counted
/// reference to it for as long as the descriptor lives.
pub struct Owner {
    label: u64,
}

impl Owner {
    /// An owner identified by a label of the caller's choosing.
    pub fn new(label: u64) -> (o: Owner)
        ensures
            o.label() == label,
    {
        Owner { label }
    }

    pub closed spec fn label(&self) -> u64 {
        self.label
    }

    /// The label this owner was made with.
    pub fn id(&self) -> (r: u64)
        ensures
            r == self.label(),
    {
        self.label
    }
}

/// A codec parameter descriptor: a block and its ownership mode.
///
/// The descriptor holds its block by value in both modes. An exclusive one has
/// no owner; a borrowed one also holds a counted reference to a shared owner,
/// so that owner stays alive at least as long as the descriptor does. A clone
/// is always exclusive.
pub struct Parameters {
    block: Block,
    owner: Option<Rc<Owner>>,
}

/// The mathematical value of a descriptor: its block and whether it is borrowed.
pub ghost struct ParametersView {
    pub block: BlockView,
    pub borrowed: bool,
}

impl View for Parameters {
    type V = ParametersView;

    closed spec fn view(&self) -> ParametersView {
        ParametersView { block: self.block@, borrowed: self.owner is Some }
    }
}

/// What narrowing a descriptor to `target` (video or audio) yields: the descriptor
/// itself, tagged with `target` if its medium was unknown, or nothing when the
/// medium is any other.
pub open spec fn narrowed(p: ParametersView, target: Type) -> Option<ParametersView> {
    if p.block.medium == Type::Unknown {
        Some(ParametersView { block: p.block.with_medium(target), ..p })
    } else if p.block.medium == target {
        Some(p)
    } else {
        None
    }
}

/// The descriptor a clone of `p` is: the same block, exclusively owned.
pub open spec fn cloned_view(p: ParametersView) -> ParametersView {
    ParametersView { block: p.block, borrowed: false }
}

/// What copying `source` into `dest` makes of `dest`: the source's block, with
/// `dest`'s medium kept where the source's is unknown, and `dest`'s ownership mode.
pub open spec fn copied_into(dest: ParametersView, source: ParametersView) -> ParametersView {
    ParametersView {
        block: if source.block.medium == Type::Unknown {
            source.block.with_medium(dest.block.medium)
        } else {
            source.block
        },
        borrowed: dest.borrowed,
    }
}

/// Copying one descriptor into another never turns a known medium into unknown,
/// and copying into a fresh descriptor gives exactly the source's block.
pub proof fn lemma_copy_keeps_known_medium(dest: ParametersView, source: ParametersView)
    ensures
        dest.block.medium != Type::Unknown ==> copied_into(dest, source).block.medium
            != Type::Unknown,
        dest.block.medium == Type::Unknown ==> copied_into(dest, source).block == source.block,
{
}

/// A descriptor of unknown medium narrows to video, which tags it as video; the
/// video descriptor then refuses to narrow to audio.
pub proof fn lemma_unknown_narrows_to_video(d: ParametersView)
    requires
        d.block.medium == Type::Unknown,
    ensures
        narrowed(d, Type::Video) is Some,
        narrowed(d, Type::Video).unwrap().block.medium == Type::Video,
        narrowed(narrowed(d, Type::Video).unwrap(), Type::Audio) is None,
{
}

/// A video descriptor refuses to narrow to audio, and narrowing it to video
/// leaves its medium as it was.
pub proof fn lemma_video_refuses_audio(d: ParametersView)
    requires
        d.block.medium == Type::Video,
    ensures
        narrowed(d, Type::Audio) is None,
        narrowed(d, Type::Video) == Some(d),
{
}

/// Narrowing never turns a known medium back into unknown, nor changes anything
/// but the medium tag.
pub proof fn lemma_narrowing_keeps_known_medium(d: ParametersView, target: Type)
    requires
        d.block.medium != Type::Unknown,
    ensures
        narrowed(d, target) matches Some(n) ==> n == d,
{
}

/// A clone has the source's codec identifier and profile, and is exclusive
/// whatever the source's ownership mode, so it outlives the source.
pub proof fn lemma_clone_keeps_codec(d: ParametersView)
    ensures
        cloned_view(d).block.codec_id == d.block.codec_id,
        cloned_view(d).block.profile == d.block.profile,
        cloned_view(d).block == d.block,
        !cloned_view(d).borrowed,
{
}

impl Parameters {
    /// A descriptor around an existing block; with an owner it is borrowed, and
    /// holds one more reference to that owner for as long as it lives.
    pub fn wrap(block: Block, owner: Option<Rc<Owner>>) -> (p: Parameters)
        ensures
            p@.block == block@,
            p@.borrowed == owner is Some,
    {
        Parameters { block, owner }
    }

    /// Read access to the underlying block.
    pub fn as_ptr(&self) -> (b: &Block)
        ensures
            b@ == self@.block,
    {
        &self.block
    }

    /// A fresh exclusive descriptor with every field at its default.
    pub fn new() -> (p: Parameters)
        ensures
            p@.block == default_block(),
            !p@.borrowed,
    {
        Parameters { block: Block::new(), owner: None }
    }

    /// Whether this descriptor borrows its memory from a shared owner.
    pub fn is_borrowed(&self) -> (r: bool)
        ensures
            r == self@.borrowed,
    {
        self.owner.is_some()
    }

    pub fn medium(&self) -> (t: Type)
        ensures
            t == self@.block.medium,
    {
        self.block.medium
    }

    pub fn id(&self) -> (r: u32)
        ensures
            r == self@.block.codec_id,
    {
        self.block.codec_id
    }

    /// The extra configuration bytes, or nothing when none are stored.
    pub fn extradata(&self) -> (r: Option<&[u8]>)
        ensures
            match (r, self@.block.extradata) {
                (Some(s), Some(e)) => s@ == e,
                (None, None) => true,
                _ => false,
            },
    {
        match &self.block.extradata {
            Some(v) => Some(v.as_slice()),
            None => None,
        }
    }

    pub fn bit_rate(&self) -> (r: usize)
        ensures
            r == self@.block.bit_rate,
    {
        self.block.bit_rate
    }

    pub fn profile(&self) -> (r: i32)
        ensures
            r == self@.block.profile,
    {
        self.block.profile
    }

    pub fn level(&self) -> (r: i32)
        ensures
            r == self@.block.level,
    {
        self.block.level
    }

    /// Narrows to a video view, tagging an unknown medium as video.
    pub fn video(self) -> (r: Result<Video, Error>)
        ensures
            match r {
                Ok(v) => narrowed(self@, Type::Video) == Some(v@),
                Err(e) => narrowed(self@, Type::Video) is None && e == Error::InvalidData,
            },
    {
        let mut p = self;
        match p.block.medium {
            Type::Unknown => {
                p.block.medium = Type::Video;
                Ok(Video(p))
            },
            Type::Video => Ok(Video(p)),
            _ => Err(Error::InvalidData),
        }
    }

    /// Narrows to an audio view, tagging an unknown medium as audio.
    pub fn audio(self) -> (r: Result<Audio, Error>)
        ensures
            match r {
                Ok(a) => narrowed(self@, Type::Audio) == Some(a@),
                Err(e) => narrowed(self@, Type::Audio) is None && e == Error::InvalidData,
            },
    {
        let mut p = self;
        match p.block.medium {
            Type::Unknown => {
                p.block.medium = Type::Audio;
                Ok(Audio(p))
            },
            Type::Audio => Ok(Audio(p)),
            _ => Err(Error::InvalidData),
        }
    }

    /// A new exclusive descriptor holding a deep copy of this one's block; it does
    /// not depend on this descriptor's owner.
    pub fn clone(&self) -> (c: Parameters)
        ensures
            c@ == cloned_view(self@),
    {
        let mut c = Parameters::new();
        c.clone_from(self);
        c
    }

    /// Overwrites this descriptor's block with a deep copy of `source`'s; the
    /// ownership mode of this descriptor is kept, and so is a known medium that
    /// the source would reset to unknown.
    pub fn clone_from(&mut self, source: &Parameters)
        ensures
            final(self)@ == copied_into(old(self)@, source@),
    {
        let medium = self.block.medium;
        self.block = source.block.copy();
        if self.block.medium == Type::Unknown {
            self.block.medium = medium;
        }
    }
}

impl Default for Parameters {
    fn default() -> (p: Parameters)
        ensures
            p@.block == default_block(),
            !p@.borrowed,
    {
        Parameters::new()
    }
}

/// A descriptor narrowed to video.
pub struct Video(Parameters);

/// A descriptor narrowed to audio.
pub struct Audio(Parameters);

impl View for Video {
    type V = ParametersView;

    closed spec fn view(&self) -> ParametersView {
        self.0@
    }
}

impl View for Audio {
    type V = ParametersView;

    closed spec fn view(&self) -> ParametersView {
        self.0@
    }
}

impl Video {
    /// The underlying descriptor.
    pub fn parameters(&self) -> (p: &Parameters)
        ensures
            p@ == self@,
    {
        &self.0
    }

    /// Gives the underlying descriptor back.
    pub fn into_parameters(self) -> (p: Parameters)
        ensures
            p@ == self@,
    {
        self.0
    }

    /// The pixel format code.
    pub fn format(&self) -> (r: i32)
        ensures
            r == self@.block.format,
    {
        self.0.block.format
    }

    pub fn width(&self) -> (r: u32)
        ensures
            r == self@.block.width,
    {
        self.0.block.width
    }

    pub fn height(&self) -> (r: u32)
        ensures
            r == self@.block.height,
    {
        self.0.block.height
    }
}

impl Audio {
    /// The underlying descriptor.
    pub fn parameters(&self) -> (p: &Parameters)
        ensures
            p@ == self@,
    {
        &self.0
    }

    /// Gives the underlying descriptor back.
    pub fn into_parameters(self) -> (p: Parameters)
        ensures
            p@ == self@,
    {
        self.0
    }

    /// The sample format code.
    pub fn format(&self) -> (r: i32)
        ensures
            r == self@.block.format,
    {
        self.0.block.format
    }

    pub fn rate(&self) -> (r: u32)
        ensures
            r == self@.block.sample_rate,
    {
        self.0.block.sample_rate
    }

    /// The channel layout as a bit-set of channel roles.
    pub fn channel_layout(&self) -> (r: u64)
        ensures
            r == self@.block.channel_layout,
    {
        self.0.block.channel_layout
    }

    pub fn channels(&self) -> (r: u16)
        ensures
            r == self@.block.channels,
    {
        self.0.block.channels
    }
}

} // verus!
