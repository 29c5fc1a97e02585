//! The registry of block definitions.
//!
//! Blocks are numbered in the order in which they are registered,
//! starting with the built-in air block, which is 0. A definition is
//! never changed, removed or renumbered.

use vstd::prelude::*;
use crate::atlas::AtlasTextureMap;
use crate::scalar::Scalar;

verus! {

/// How a block is drawn.
#[derive(Clone, Copy, Debug, PartialEq, Eq, Structural)]
pub enum DrawType {
    /// Nothing is drawn.
    Airlike,
    /// A full cube.
    Normal,
    /// A set of boxes given by the block's shape.
    BlockBox,
}

/// The number of texture slots of a block, one per face.
pub const TEXTURE_SLOTS: usize = 6;

/// The number of values that describe one box of a shape: its lower and
/// its upper corner (-x, -y, -z, +x, +y, +z).
pub const SHAPE_COMPONENTS: usize = 6;

/// One registered block, as the contracts of the registry speak of it.
pub struct BlockDefinition {
    pub id: u32,
    pub name: Seq<char>,
    pub module: Seq<char>,
    pub draw_type: DrawType,
    pub textures: Seq<Seq<char>>,
    pub shape: Option<Seq<Scalar>>,
    pub atlas_mapping: Seq<AtlasTextureMap>,
}

/// The name of the texture that fills the slots for which a block names
/// none.
pub open spec fn placeholder_texture() -> Seq<char> {
    "unkown.png"@
}

/// The name of the built-in block that stands for empty space.
pub open spec fn air_name() -> Seq<char> {
    "air"@
}

/// The names that a list of strings holds.
pub open spec fn texture_names(textures: Seq<String>) -> Seq<Seq<char>> {
    Seq::new(textures.len(), |i: int| textures[i]@)
}

/// The texture names of a block after registration: the names given,
/// followed by the placeholder as often as it takes to fill six slots.
pub open spec fn padded_textures(textures: Seq<Seq<char>>) -> Seq<Seq<char>> {
    if textures.len() >= TEXTURE_SLOTS {
        textures
    } else {
        textures + Seq::new((TEXTURE_SLOTS - textures.len()) as nat, |i: int| placeholder_texture())
    }
}

/// The values of an optional shape.
pub open spec fn shape_values(shape: Option<Vec<Scalar>>) -> Option<Seq<Scalar>> {
    match shape {
        Some(values) => Some(values@),
        None => None,
    }
}

/// Whether a shape is made of whole boxes, six values each.
pub open spec fn shape_is_even(shape: Option<Seq<Scalar>>) -> bool {
    match shape {
        Some(values) => values.len() % SHAPE_COMPONENTS as nat == 0,
        None => true,
    }
}

/// Whether `id` is the first of `blocks` that is called `name`.
pub open spec fn is_first_named(blocks: Seq<BlockDefinition>, name: Seq<char>, id: int) -> bool {
    &&& 0 <= id < blocks.len()
    &&& blocks[id].name == name
    &&& forall|j: int| 0 <= j < id ==> blocks[j].name != name
}

/// Whether one of `blocks` is called `name`.
pub open spec fn is_registered(blocks: Seq<BlockDefinition>, name: Seq<char>) -> bool {
    exists|j: int| 0 <= j < blocks.len() && #[trigger] blocks[j].name == name
}

/// Computes [`shape_is_even`]: whether a block with this shape may be
/// registered.
pub fn has_even_shape(shape: &Option<Vec<Scalar>>) -> (r: bool)
    ensures
        r == shape_is_even(shape_values(*shape)),
{
    match shape {
        Some(values) => values.len() % SHAPE_COMPONENTS == 0,
        None => true,
    }
}

/// The registered blocks, one entry of every field per block.
pub struct BlockComponentSystem {
    id: Vec<u32>,
    name: Vec<String>,
    module: Vec<String>,
    texture: Vec<Vec<String>>,
    shape: Vec<Option<Vec<Scalar>>>,
    draw_type: Vec<DrawType>,
    mapping: Vec<Vec<AtlasTextureMap>>,
}

impl View for BlockComponentSystem {
    type V = Seq<BlockDefinition>;

    closed spec fn view(&self) -> Seq<BlockDefinition> {
        Seq::new(
            self.id@.len(),
            |i: int|
                BlockDefinition {
                    id: self.id@[i],
                    name: self.name@[i]@,
                    module: self.module@[i]@,
                    draw_type: self.draw_type@[i],
                    textures: texture_names(self.texture@[i]@),
                    shape: shape_values(self.shape@[i]),
                    atlas_mapping: self.mapping@[i]@,
                },
        )
    }
}

impl BlockComponentSystem {
    /// Every field holds one entry per block.
    pub closed spec fn aligned(&self) -> bool {
        &&& self.name@.len() == self.id@.len()
        &&& self.module@.len() == self.id@.len()
        &&& self.texture@.len() == self.id@.len()
        &&& self.shape@.len() == self.id@.len()
        &&& self.draw_type@.len() == self.id@.len()
        &&& self.mapping@.len() == self.id@.len()
    }

    /// The blocks are numbered by their place, air is the first, every
    /// block has at least six texture slots, and every shape is made of
    /// whole boxes.
    pub open spec fn wf(&self) -> bool {
        &&& self.aligned()
        &&& self@.len() > 0
        &&& self@.len() <= u32::MAX
        &&& self@[0].name == air_name()
        &&& forall|i: int|
            0 <= i < self@.len() ==> {
                &&& (#[trigger] self@[i]).id == i
                &&& self@[i].textures.len() >= TEXTURE_SLOTS
                &&& shape_is_even(self@[i].shape)
            }
    }

    /// The definition that registration adds as block `id`.
    pub open spec fn definition(
        id: u32,
        module: Seq<char>,
        name: Seq<char>,
        draw_type: DrawType,
        textures: Seq<Seq<char>>,
        shape: Option<Seq<Scalar>>,
        mapping: Seq<AtlasTextureMap>,
    ) -> BlockDefinition {
        BlockDefinition {
            id,
            name,
            module,
            draw_type,
            textures: padded_textures(textures),
            shape,
            atlas_mapping: mapping,
        }
    }

    /// The definition of the built-in air block.
    pub open spec fn air() -> BlockDefinition {
        Self::definition(
            0,
            Seq::empty(),
            air_name(),
            DrawType::Airlike,
            seq![Seq::<char>::empty()],
            None,
            Seq::empty(),
        )
    }

    /// Adds one entry to every field.
    fn append(
        &mut self,
        module: String,
        name: String,
        draw_type: DrawType,
        textures: Vec<String>,
        shape: Option<Vec<Scalar>>,
        mapping: Vec<AtlasTextureMap>,
    ) -> (id: u32)
        requires
            old(self).aligned(),
            old(self)@.len() < u32::MAX,
        ensures
            final(self).aligned(),
            id == old(self)@.len(),
            final(self)@ == old(self)@.push(
                BlockDefinition {
                    id,
                    name: name@,
                    module: module@,
                    draw_type,
                    textures: texture_names(textures@),
                    shape: shape_values(shape),
                    atlas_mapping: mapping@,
                },
            ),
    {
        let id: u32 = self.id.len() as u32;
        self.id.push(id);
        self.name.push(name);
        self.module.push(module);
        self.texture.push(textures);
        self.shape.push(shape);
        self.draw_type.push(draw_type);
        self.mapping.push(mapping);
        assert(self@ =~= old(self)@.push(
            BlockDefinition {
                id,
                name: name@,
                module: module@,
                draw_type,
                textures: texture_names(textures@),
                shape: shape_values(shape),
                atlas_mapping: mapping@,
            },
        ));
        id
    }

    /// A registry that holds the air block alone.
    pub fn new() -> (r: BlockComponentSystem)
        ensures
            r.wf(),
            r@ == seq![Self::air()],
    {
        let mut component_system = BlockComponentSystem {
            id: Vec::new(),
            name: Vec::new(),
            module: Vec::new(),
            texture: Vec::new(),
            shape: Vec::new(),
            draw_type: Vec::new(),
            mapping: Vec::new(),
        };
        assert(component_system@ =~= Seq::<BlockDefinition>::empty());
        let mut textures: Vec<String> = Vec::new();
        textures.push(String::new());
        assert(texture_names(textures@) =~= seq![Seq::<char>::empty()]);
        let textures = pad_textures(textures);
        component_system.append(
            String::new(),
            "air".to_owned(),
            DrawType::Airlike,
            textures,
            None,
            Vec::new(),
        );
        assert(component_system@ =~= seq![Self::air()]);
        component_system
    }

    /// The number of registered blocks.
    pub fn len(&self) -> (r: usize)
        requires
            self.wf(),
        ensures
            r == self@.len(),
    {
        self.id.len()
    }

    /// Registers a block and gives it the next number, which is
    /// returned. A shape that is not made of whole boxes is no shape of a
    /// block: such a block cannot be registered.
    pub fn register_block(
        &mut self,
        module: String,
        name: String,
        draw_type: DrawType,
        textures: Vec<String>,
        shape: Option<Vec<Scalar>>,
        mapping: Vec<AtlasTextureMap>,
    ) -> (id: u32)
        requires
            old(self).wf(),
            old(self)@.len() < u32::MAX,
            shape_is_even(shape_values(shape)),
        ensures
            final(self).wf(),
            id == old(self)@.len(),
            final(self)@ == old(self)@.push(
                Self::definition(
                    id,
                    module@,
                    name@,
                    draw_type,
                    texture_names(textures@),
                    shape_values(shape),
                    mapping@,
                ),
            ),
    {
        let textures = pad_textures(textures);
        self.append(module, name, draw_type, textures, shape, mapping)
    }

    /// The number of the first block called `name`, if there is one.
    pub fn lookup_id(&self, name: &String) -> (r: Option<u32>)
        requires
            self.wf(),
        ensures
            match r {
                Some(id) => is_first_named(self@, name@, id as int),
                None => !is_registered(self@, name@),
            },
    {
        let mut i: usize = 0;
        while i < self.name.len()
            invariant
                self.wf(),
                i <= self.name@.len(),
                forall|j: int| 0 <= j < i ==> self@[j].name != name@,
            decreases self.name@.len() - i,
        {
            if self.name[i] == *name {
                return Some(i as u32);
            }
            i += 1;
        }
        None
    }

    /// The number of the first block called `name`, which must be
    /// registered.
    pub fn get_id_of(&self, name: String) -> (r: u32)
        requires
            self.wf(),
            is_registered(self@, name@),
        ensures
            is_first_named(self@, name@, r as int),
    {
        match self.lookup_id(&name) {
            Some(id) => id,
            None => 0,
        }
    }

    /// The name of block `id`.
    pub fn get_name(&self, id: u32) -> (r: &String)
        requires
            self.wf(),
            id < self@.len(),
        ensures
            r@ == self@[id as int].name,
    {
        &self.name[id as usize]
    }

    /// The module that registered block `id`.
    pub fn get_module(&self, id: u32) -> (r: &String)
        requires
            self.wf(),
            id < self@.len(),
        ensures
            r@ == self@[id as int].module,
    {
        &self.module[id as usize]
    }

    /// How block `id` is drawn.
    pub fn get_draw_type(&self, id: u32) -> (r: DrawType)
        requires
            self.wf(),
            id < self@.len(),
        ensures
            r == self@[id as int].draw_type,
    {
        self.draw_type[id as usize]
    }

    /// The texture names of block `id`, one per face.
    pub fn get_textures(&self, id: u32) -> (r: &Vec<String>)
        requires
            self.wf(),
            id < self@.len(),
        ensures
            texture_names(r@) == self@[id as int].textures,
            r@.len() >= TEXTURE_SLOTS,
    {
        &self.texture[id as usize]
    }

    /// The shape of block `id`, if it has one.
    pub fn get_shape(&self, id: u32) -> (r: &Option<Vec<Scalar>>)
        requires
            self.wf(),
            id < self@.len(),
        ensures
            shape_values(*r) == self@[id as int].shape,
    {
        &self.shape[id as usize]
    }

    /// The texture mappings of block `id`, one per face where the block
    /// is a full cube.
    pub fn get_mapping(&self, id: u32) -> (r: &Vec<AtlasTextureMap>)
        requires
            self.wf(),
            id < self@.len(),
        ensures
            r@ == self@[id as int].atlas_mapping,
    {
        &self.mapping[id as usize]
    }
}

/// Fills the texture slots of a block up to six with the placeholder.
pub fn pad_textures(textures: Vec<String>) -> (r: Vec<String>)
    ensures
        texture_names(r@) == padded_textures(texture_names(textures@)),
{
    let ghost given = textures@;
    let mut textures = textures;
    while textures.len() < TEXTURE_SLOTS
        invariant
            given.len() <= textures@.len(),
            given.len() < TEXTURE_SLOTS ==> textures@.len() <= TEXTURE_SLOTS,
            given.len() >= TEXTURE_SLOTS ==> textures@.len() == given.len(),
            forall|i: int| 0 <= i < given.len() ==> textures@[i] == given[i],
            forall|i: int| given.len() <= i < textures@.len() ==> textures@[i]@ == placeholder_texture(),
        decreases TEXTURE_SLOTS - textures@.len(),
    {
        textures.push("unkown.png".to_owned());
    }
    let ghost names = texture_names(given);
    let ghost padded = padded_textures(names);
    assert(names.len() == given.len());
    assert(padded.len() == textures@.len());
    assert forall|i: int| 0 <= i < padded.len() implies texture_names(textures@)[i] == padded[i] by {
        if i < given.len() {
            assert(padded[i] == names[i]);
        } else {
            assert(padded[i] == placeholder_texture());
        }
    }
    assert(texture_names(textures@) =~= padded);
    textures
}

/// A registered block has six texture slots or more: exactly six where
/// at most six names were given.
pub proof fn lemma_six_texture_slots(textures: Seq<Seq<char>>)
    ensures
        padded_textures(textures).len() >= TEXTURE_SLOTS,
        textures.len() <= TEXTURE_SLOTS ==> padded_textures(textures).len() == TEXTURE_SLOTS,
        forall|i: int| 0 <= i < textures.len() ==> padded_textures(textures)[i] == textures[i],
        forall|i: int|
            textures.len() <= i < padded_textures(textures).len() ==> padded_textures(textures)[i]
                == placeholder_texture(),
{
}

} // verus!
