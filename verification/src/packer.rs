//! The texture packer, as the intake reads it.

use vstd::prelude::*;
use std::hash::Hash;
use image::DynamicImage;
use texture_packer::TexturePacker;
use crate::atlas::PackedRect;

verus! {

/// `image::DynamicImage`: a decoded image. Nothing is stated of it.
#[verifier::external_type_specification]
#[verifier::external_body]
pub struct ExDynamicImage(image::DynamicImage);

/// `texture_packer::TexturePacker`: the textures that were packed into
/// one atlas, each under its key. Its contents are known only through
/// [`packed_frames`].
#[verifier::external_type_specification]
#[verifier::external_body]
#[verifier::reject_recursive_types(T)]
#[verifier::reject_recursive_types(K)]
pub struct ExTexturePacker<'a, T: 'a + Clone, K: Clone + Eq + Hash>(
    texture_packer::TexturePacker<'a, T, K>,
);

/// The rectangle of the atlas that the packer gave to each texture, by
/// the name under which the texture was packed.
pub uninterp spec fn packed_frames(packer: &TexturePacker<DynamicImage, String>) -> Map<
    Seq<char>,
    PackedRect,
>;

/// `TexturePacker::get_frame`: the frame that the packer holds under
/// `key`, of which the rectangle in the atlas is returned, or `None`
/// where it holds no frame under that key.
#[verifier::external_body]
pub(crate) fn packer_get_frame(packer: &TexturePacker<DynamicImage, String>, key: &String) -> (r:
    Option<PackedRect>)
    ensures
        r == if packed_frames(packer).dom().contains(key@) {
            Some(packed_frames(packer)[key@])
        } else {
            None
        },
{
    match packer.get_frame(key) {
        Some(found) => Some(
            PackedRect { x: found.frame.x, y: found.frame.y, w: found.frame.w, h: found.frame.h },
        ),
        None => None,
    }
}

} // verus!
