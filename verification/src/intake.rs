//! The intake of content: what a content loader has read is turned into
//! the size of the texture atlas, into texture mappings and into
//! registered blocks.

use vstd::prelude::*;
use image::DynamicImage;
use texture_packer::TexturePacker;
use crate::atlas::AtlasTextureMap;
use crate::atlas::PackedRect;
use crate::blocks::BlockComponentSystem;
use crate::blocks::BlockDefinition;
use crate::blocks::DrawType;
use crate::blocks::air_name;
use crate::blocks::is_first_named;
use crate::blocks::is_registered;
use crate::blocks::shape_is_even;
use crate::blocks::texture_names;
use crate::packer::packed_frames;
use crate::packer::packer_get_frame;
use crate::scalar::Scalar;

verus! {

/// Takes one more texture of `width` by `height` pixels into account:
/// counts it, and raises the largest width and height seen so far where
/// this texture is larger.
pub fn configure_texture_atlas(
    width: u32,
    height: u32,
    number_of_textures: &mut u32,
    biggest_width: &mut u32,
    biggest_height: &mut u32,
)
    requires
        *old(number_of_textures) < u32::MAX,
    ensures
        *final(number_of_textures) == *old(number_of_textures) + 1,
        *final(biggest_width) == if width > *old(biggest_width) {
            width
        } else {
            *old(biggest_width)
        },
        *final(biggest_height) == if height > *old(biggest_height) {
            height
        } else {
            *old(biggest_height)
        },
{
    if width > *biggest_width {
        *biggest_width = width;
    }
    if height > *biggest_height {
        *biggest_height = height;
    }
    *number_of_textures += 1;
}

/// The number of textures that an atlas for `number_of_textures`
/// textures holds side by side.
pub open spec fn atlas_columns(number_of_textures: u32) -> int {
    (number_of_textures + 2) / 2
}

/// The number of textures that an atlas for `number_of_textures`
/// textures holds one above the other.
pub open spec fn atlas_rows(number_of_textures: u32) -> int {
    (number_of_textures + 2) / 2 + 1
}

/// The largest width and height that the atlas may take, in pixels: room
/// for [`atlas_columns`] by [`atlas_rows`] textures of the largest size.
/// The result is `None` where a side does not fit 32 bits.
pub fn atlas_limits(number_of_textures: u32, biggest_width: u32, biggest_height: u32) -> (r:
    Option<(u32, u32)>)
    ensures
        match r {
            Some((max_width, max_height)) => {
                &&& max_width == biggest_width * atlas_columns(number_of_textures)
                &&& max_height == biggest_height * atlas_rows(number_of_textures)
            },
            None => {
                ||| biggest_width * atlas_columns(number_of_textures) > u32::MAX
                ||| biggest_height * atlas_rows(number_of_textures) > u32::MAX
            },
        },
{
    let configged_width: u64 = (number_of_textures as u64 + 2) / 2;
    let configged_height: u64 = ((number_of_textures as u64 + 2) / 2) + 1;
    assert(biggest_width * configged_width <= 0xffff_ffff * 0x1_0000_0000) by (nonlinear_arith)
        requires
            biggest_width <= 0xffff_ffff,
            configged_width <= 0x1_0000_0000,
    ;
    assert(biggest_height * configged_height <= 0xffff_ffff * 0x1_0000_0000) by (nonlinear_arith)
        requires
            biggest_height <= 0xffff_ffff,
            configged_height <= 0x1_0000_0000,
    ;
    let max_width: u64 = biggest_width as u64 * configged_width;
    let max_height: u64 = biggest_height as u64 * configged_height;
    if max_width > 0xffff_ffff || max_height > 0xffff_ffff {
        None
    } else {
        Some((max_width as u32, max_height as u32))
    }
}

/// The draw type that a content file names: `normal`, `airlike` or
/// `block_box`; any other word stands for `normal`.
pub open spec fn named_draw_type(text: Seq<char>) -> DrawType {
    if text == "normal"@ {
        DrawType::Normal
    } else if text == "airlike"@ {
        DrawType::Airlike
    } else if text == "block_box"@ {
        DrawType::BlockBox
    } else {
        DrawType::Normal
    }
}

/// Computes [`named_draw_type`].
pub fn parse_draw_type(text: &str) -> (r: DrawType)
    ensures
        r == named_draw_type(text@),
{
    let word: String = text.to_owned();
    if word == "normal".to_owned() {
        DrawType::Normal
    } else if word == "airlike".to_owned() {
        DrawType::Airlike
    } else if word == "block_box".to_owned() {
        DrawType::BlockBox
    } else {
        DrawType::Normal
    }
}

/// What a content file says of one block.
pub struct BlockSource {
    pub name: String,
    pub module: String,
    /// The texture of each face.
    pub textures: Vec<String>,
    /// The quarter turns of each face's texture.
    pub rotations: Vec<u8>,
    /// The mirroring of each face's texture.
    pub flips: Vec<u8>,
    /// The word that names the draw type.
    pub draw_type: String,
    /// The boxes of the block, six values each, where the file gives any.
    pub block_box: Option<Vec<Scalar>>,
}

/// Why a block of a content file was not registered.
#[derive(Clone, Copy, Debug, PartialEq, Eq, Structural)]
pub enum IntakeError {
    /// The block is drawn as boxes, and the file gives it none.
    MissingBlockBox,
    /// The texture of face `face` is not in the atlas.
    MissingTexture { face: usize },
    /// The file gives no rotation for face `face`.
    MissingRotation { face: usize },
    /// The file gives no mirroring for face `face`.
    MissingFlip { face: usize },
    /// The boxes of the block are not six values each.
    UnevenShape,
}

/// The block of a content file at which the intake stopped, and why.
#[derive(Clone, Copy, Debug, PartialEq, Eq, Structural)]
pub struct IntakeFailure {
    pub block: usize,
    pub error: IntakeError,
}

/// The packed atlas as the intake reads it: its size in pixels, and the
/// rectangle of every texture in it by the texture's name.
pub struct AtlasLayout {
    pub width: u32,
    pub height: u32,
    pub frames: Map<Seq<char>, PackedRect>,
}

/// The layout of the atlas that `packer` packed and that came out
/// `width` by `height` pixels.
pub open spec fn layout_of(
    packer: &TexturePacker<DynamicImage, String>,
    width: u32,
    height: u32,
) -> AtlasLayout {
    AtlasLayout { width, height, frames: packed_frames(packer) }
}

/// The rectangle that `frames` holds under `name`, if it holds one.
pub open spec fn frame_in(frames: Map<Seq<char>, PackedRect>, name: Seq<char>) -> Option<
    PackedRect,
> {
    if frames.dom().contains(name) {
        Some(frames[name])
    } else {
        None
    }
}

/// The texture mapping of a face of a full cube whose texture has the
/// rectangle `frame` in the atlas, or what is missing for it: the texture
/// in the atlas first, then the rotation, then the mirroring.
pub open spec fn mapping_of(
    atlas_width: u32,
    atlas_height: u32,
    frame: Option<PackedRect>,
    rotations: Seq<u8>,
    flips: Seq<u8>,
    face: int,
) -> Result<AtlasTextureMap, IntakeError> {
    match frame {
        None => Err(IntakeError::MissingTexture { face: face as usize }),
        Some(rect) => if face >= rotations.len() {
            Err(IntakeError::MissingRotation { face: face as usize })
        } else if face >= flips.len() {
            Err(IntakeError::MissingFlip { face: face as usize })
        } else {
            Ok(
                AtlasTextureMap::spec_build(
                    atlas_width,
                    atlas_height,
                    rect,
                    rotations[face],
                    flips[face],
                ),
            )
        },
    }
}

/// The texture mapping of face `face` of a block, or what is missing for
/// it.
pub open spec fn face_mapping(atlas: AtlasLayout, source: BlockSource, face: int) -> Result<
    AtlasTextureMap,
    IntakeError,
> {
    mapping_of(
        atlas.width,
        atlas.height,
        frame_in(atlas.frames, source.textures@[face]@),
        source.rotations@,
        source.flips@,
        face,
    )
}

/// The texture mappings of the first `faces` faces of a full cube, or
/// what is missing for the first face that lacks something.
pub open spec fn face_mappings(atlas: AtlasLayout, source: BlockSource, faces: nat) -> Result<
    Seq<AtlasTextureMap>,
    IntakeError,
>
    decreases faces,
{
    if faces == 0 {
        Ok(Seq::empty())
    } else {
        match face_mappings(atlas, source, (faces - 1) as nat) {
            Err(error) => Err(error),
            Ok(mappings) => match face_mapping(atlas, source, faces - 1) {
                Err(error) => Err(error),
                Ok(mapping) => Ok(mappings.push(mapping)),
            },
        }
    }
}

/// What the intake makes of a block of a content file: nothing for the
/// air block, which is built in; else the draw type, the shape and the
/// texture mappings under which the block is registered, or the reason
/// for which it is not. Only a block drawn as boxes has a shape, and only
/// a full cube has mappings, one for each of its textures.
pub open spec fn block_outcome(atlas: AtlasLayout, source: BlockSource) -> Result<
    Option<(DrawType, Option<Seq<Scalar>>, Seq<AtlasTextureMap>)>,
    IntakeError,
> {
    if source.name@ == air_name() {
        Ok(None)
    } else {
        match named_draw_type(source.draw_type@) {
            DrawType::Airlike => Ok(Some((DrawType::Airlike, None, Seq::empty()))),
            DrawType::BlockBox => match source.block_box {
                None => Err(IntakeError::MissingBlockBox),
                Some(values) => if shape_is_even(Some(values@)) {
                    Ok(Some((DrawType::BlockBox, Some(values@), Seq::empty())))
                } else {
                    Err(IntakeError::UnevenShape)
                },
            },
            DrawType::Normal => match face_mappings(atlas, source, source.textures@.len()) {
                Err(error) => Err(error),
                Ok(mappings) => Ok(Some((DrawType::Normal, None, mappings))),
            },
        }
    }
}

/// The registry after the intake of one block.
pub open spec fn registry_after(
    registry: Seq<BlockDefinition>,
    atlas: AtlasLayout,
    source: BlockSource,
) -> Seq<BlockDefinition> {
    match block_outcome(atlas, source) {
        Ok(Some((draw_type, shape, mappings))) => registry.push(
            BlockComponentSystem::definition(
                registry.len() as u32,
                source.module@,
                source.name@,
                draw_type,
                texture_names(source.textures@),
                shape,
                mappings,
            ),
        ),
        _ => registry,
    }
}

/// A copy of a list of names.
fn copy_names(names: &Vec<String>) -> (r: Vec<String>)
    ensures
        texture_names(r@) == texture_names(names@),
        r@.len() == names@.len(),
{
    let mut copy: Vec<String> = Vec::new();
    let mut i: usize = 0;
    while i < names.len()
        invariant
            i <= names@.len(),
            copy@.len() == i,
            forall|j: int| 0 <= j < i ==> copy@[j]@ == names@[j]@,
        decreases names@.len() - i,
    {
        copy.push(names[i].clone());
        i += 1;
    }
    assert(texture_names(copy@) =~= texture_names(names@));
    copy
}

/// A copy of a list of scalars.
fn copy_scalars(values: &Vec<Scalar>) -> (r: Vec<Scalar>)
    ensures
        r@ == values@,
{
    let mut copy: Vec<Scalar> = Vec::new();
    let mut i: usize = 0;
    while i < values.len()
        invariant
            i <= values@.len(),
            copy@.len() == i,
            forall|j: int| 0 <= j < i ==> copy@[j] == values@[j],
        decreases values@.len() - i,
    {
        copy.push(values[i]);
        i += 1;
    }
    assert(copy@ =~= values@);
    copy
}

/// Builds the texture mapping of one face of a full cube from the
/// rectangle that the packer holds for its texture, if any, and from the
/// rotation and the mirroring that the content file gives for that face.
pub fn build_face_mapping(
    atlas_width: u32,
    atlas_height: u32,
    frame: Option<PackedRect>,
    rotations: &Vec<u8>,
    flips: &Vec<u8>,
    face: usize,
) -> (r: Result<AtlasTextureMap, IntakeError>)
    ensures
        r == mapping_of(atlas_width, atlas_height, frame, rotations@, flips@, face as int),
{
    match frame {
        None => Err(IntakeError::MissingTexture { face }),
        Some(rect) => {
            if face >= rotations.len() {
                Err(IntakeError::MissingRotation { face })
            } else if face >= flips.len() {
                Err(IntakeError::MissingFlip { face })
            } else {
                Ok(
                    AtlasTextureMap::build(
                        atlas_width,
                        atlas_height,
                        rect,
                        rotations[face],
                        flips[face],
                    ),
                )
            }
        },
    }
}

/// Builds the texture mapping of every face of a full cube: for each
/// texture its rectangle in the atlas, with the rotation and the
/// mirroring that the content file gives for that face.
pub fn build_face_mappings(
    packer: &TexturePacker<DynamicImage, String>,
    atlas_width: u32,
    atlas_height: u32,
    source: &BlockSource,
) -> (r: Result<Vec<AtlasTextureMap>, IntakeError>)
    ensures
        match r {
            Ok(mappings) => face_mappings(
                layout_of(packer, atlas_width, atlas_height),
                *source,
                source.textures@.len(),
            ) == Ok::<Seq<AtlasTextureMap>, IntakeError>(mappings@),
            Err(error) => face_mappings(
                layout_of(packer, atlas_width, atlas_height),
                *source,
                source.textures@.len(),
            ) == Err::<Seq<AtlasTextureMap>, IntakeError>(error),
        },
{
    let ghost atlas = layout_of(packer, atlas_width, atlas_height);
    let mut mapping: Vec<AtlasTextureMap> = Vec::new();
    let mut index: usize = 0;
    while index < source.textures.len()
        invariant
            atlas == layout_of(packer, atlas_width, atlas_height),
            index <= source.textures@.len(),
            face_mappings(atlas, *source, index as nat) == Ok::<Seq<AtlasTextureMap>, IntakeError>(
                mapping@,
            ),
        decreases source.textures@.len() - index,
    {
        let frame: Option<PackedRect> = packer_get_frame(packer, &source.textures[index]);
        let built = build_face_mapping(
            atlas_width,
            atlas_height,
            frame,
            &source.rotations,
            &source.flips,
            index,
        );
        match built {
            Err(error) => {
                proof {
                    lemma_face_mappings_stop(
                        atlas,
                        *source,
                        index as nat,
                        source.textures@.len(),
                    );
                }
                return Err(error);
            },
            Ok(current_mapping) => {
                mapping.push(current_mapping);
            },
        }
        index += 1;
    }
    Ok(mapping)
}

/// Once a face lacks something, every longer run of faces stops at that
/// face for the same reason.
proof fn lemma_face_mappings_stop(atlas: AtlasLayout, source: BlockSource, face: nat, faces: nat)
    requires
        face < faces,
        face_mappings(atlas, source, face) is Ok,
        face_mapping(atlas, source, face as int) is Err,
    ensures
        face_mappings(atlas, source, faces) == Err::<Seq<AtlasTextureMap>, IntakeError>(
            face_mapping(atlas, source, face as int)->Err_0,
        ),
    decreases faces,
{
    if faces > face + 1 {
        lemma_face_mappings_stop(atlas, source, face, (faces - 1) as nat);
    }
}

/// Takes one block of a content file into the registry. The air block is
/// passed over. A block that lacks something is refused, and the
/// registry stays as it was.
pub fn intake_block(
    bcs: &mut BlockComponentSystem,
    packer: &TexturePacker<DynamicImage, String>,
    atlas_width: u32,
    atlas_height: u32,
    source: &BlockSource,
) -> (r: Result<Option<u32>, IntakeError>)
    requires
        old(bcs).wf(),
        old(bcs)@.len() < u32::MAX,
    ensures
        final(bcs).wf(),
        final(bcs)@ == registry_after(
            old(bcs)@,
            layout_of(packer, atlas_width, atlas_height),
            *source,
        ),
        match block_outcome(layout_of(packer, atlas_width, atlas_height), *source) {
            Err(error) => r == Err::<Option<u32>, IntakeError>(error),
            Ok(None) => r == Ok::<Option<u32>, IntakeError>(None),
            Ok(Some(_)) => r == Ok::<Option<u32>, IntakeError>(Some(old(bcs)@.len() as u32)),
        },
{
    if source.name == "air".to_owned() {
        return Ok(None);
    }
    let draw_type: DrawType = parse_draw_type(source.draw_type.as_str());
    let mut block_box_option: Option<Vec<Scalar>> = None;
    let mut mapping: Vec<AtlasTextureMap> = Vec::new();
    match draw_type {
        DrawType::Airlike => {},
        DrawType::BlockBox => {
            match &source.block_box {
                None => {
                    return Err(IntakeError::MissingBlockBox);
                },
                Some(values) => {
                    if values.len() % 6 != 0 {
                        return Err(IntakeError::UnevenShape);
                    }
                    block_box_option = Some(copy_scalars(values));
                },
            }
        },
        DrawType::Normal => {
            match build_face_mappings(packer, atlas_width, atlas_height, source) {
                Err(error) => {
                    return Err(error);
                },
                Ok(mappings) => {
                    mapping = mappings;
                },
            }
        },
    }
    let id: u32 = bcs.register_block(
        source.module.clone(),
        source.name.clone(),
        draw_type,
        copy_names(&source.textures),
        block_box_option,
        mapping,
    );
    Ok(Some(id))
}

/// The first block from `from` on that the intake refuses, or the number
/// of blocks where it refuses none.
pub open spec fn first_refused(atlas: AtlasLayout, sources: Seq<BlockSource>, from: int) -> int
    decreases sources.len() - from,
{
    if from < 0 || from >= sources.len() {
        sources.len() as int
    } else if block_outcome(atlas, sources[from]) is Err {
        from
    } else {
        first_refused(atlas, sources, from + 1)
    }
}

/// The registry after the intake of the first `blocks` blocks, one after
/// the other.
pub open spec fn registry_after_all(
    registry: Seq<BlockDefinition>,
    atlas: AtlasLayout,
    sources: Seq<BlockSource>,
    blocks: nat,
) -> Seq<BlockDefinition>
    decreases blocks,
{
    if blocks == 0 {
        registry
    } else {
        registry_after(
            registry_after_all(registry, atlas, sources, (blocks - 1) as nat),
            atlas,
            sources[blocks - 1],
        )
    }
}

/// Takes the blocks of a content file into the registry, in their order.
/// The intake stops at the first block that lacks something: the blocks
/// before it are registered, that block and those after it are not.
pub fn intake_api_values(
    bcs: &mut BlockComponentSystem,
    packer: &TexturePacker<DynamicImage, String>,
    atlas_width: u32,
    atlas_height: u32,
    sources: &Vec<BlockSource>,
) -> (r: Result<(), IntakeFailure>)
    requires
        old(bcs).wf(),
        old(bcs)@.len() + sources@.len() <= u32::MAX,
    ensures
        final(bcs).wf(),
        final(bcs)@ == registry_after_all(
            old(bcs)@,
            layout_of(packer, atlas_width, atlas_height),
            sources@,
            first_refused(layout_of(packer, atlas_width, atlas_height), sources@, 0) as nat,
        ),
        0 <= first_refused(layout_of(packer, atlas_width, atlas_height), sources@, 0)
            <= sources@.len(),
        first_refused(layout_of(packer, atlas_width, atlas_height), sources@, 0) == sources@.len()
            ==> r == Ok::<(), IntakeFailure>(()),
        first_refused(layout_of(packer, atlas_width, atlas_height), sources@, 0) < sources@.len()
            ==> r == Err::<(), IntakeFailure>(
            IntakeFailure {
                block: first_refused(
                    layout_of(packer, atlas_width, atlas_height),
                    sources@,
                    0,
                ) as usize,
                error: block_outcome(
                    layout_of(packer, atlas_width, atlas_height),
                    sources@[first_refused(
                        layout_of(packer, atlas_width, atlas_height),
                        sources@,
                        0,
                    )],
                )->Err_0,
            },
        ),
{
    let ghost atlas = layout_of(packer, atlas_width, atlas_height);
    let mut i: usize = 0;
    while i < sources.len()
        invariant
            bcs.wf(),
            atlas == layout_of(packer, atlas_width, atlas_height),
            i <= sources@.len(),
            old(bcs)@.len() + sources@.len() <= u32::MAX,
            bcs@.len() <= old(bcs)@.len() + i,
            bcs@ == registry_after_all(old(bcs)@, atlas, sources@, i as nat),
            first_refused(atlas, sources@, 0) == first_refused(atlas, sources@, i as int),
        decreases sources@.len() - i,
    {
        match intake_block(bcs, packer, atlas_width, atlas_height, &sources[i]) {
            Err(error) => {
                return Err(IntakeFailure { block: i, error });
            },
            Ok(_) => {},
        }
        i += 1;
    }
    Ok(())
}

/// The numbers of the blocks that `names` name, in their order, or the
/// place of the first name that no block has.
pub fn resolve_names(bcs: &BlockComponentSystem, names: &Vec<String>) -> (r: Result<
    Vec<u32>,
    usize,
>)
    requires
        bcs.wf(),
    ensures
        match r {
            Ok(ids) => {
                &&& ids@.len() == names@.len()
                &&& forall|i: int|
                    0 <= i < names@.len() ==> is_first_named(bcs@, names@[i]@, ids@[i] as int)
            },
            Err(missing) => {
                &&& missing < names@.len()
                &&& !is_registered(bcs@, names@[missing as int]@)
                &&& forall|i: int| 0 <= i < missing ==> is_registered(bcs@, names@[i]@)
            },
        },
{
    let mut ids: Vec<u32> = Vec::new();
    let mut i: usize = 0;
    while i < names.len()
        invariant
            bcs.wf(),
            i <= names@.len(),
            ids@.len() == i,
            forall|j: int| 0 <= j < i ==> is_first_named(bcs@, names@[j]@, ids@[j] as int),
        decreases names@.len() - i,
    {
        match bcs.lookup_id(&names[i]) {
            Some(id) => {
                ids.push(id);
            },
            None => {
                assert forall|j: int| 0 <= j < i implies is_registered(bcs@, names@[j]@) by {
                    assert(is_first_named(bcs@, names@[j]@, ids@[j] as int));
                }
                return Err(i);
            },
        }
        i += 1;
    }
    Ok(ids)
}

} // verus!
