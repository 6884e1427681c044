//! Decoded textures, kept by name.

use vstd::hash_map::StringHashMap;
use vstd::prelude::*;

verus! {

/// The pixels of an image, four bytes to a pixel, row after row.
#[derive(Debug)]
pub struct Texture {
    pub width: u32,
    pub height: u32,
    pub data: Vec<u8>,
}

/// The textures that have been loaded, each under its name.
pub struct ResourceManager {
    textures: StringHashMap<Texture>,
}

impl View for ResourceManager {
    type V = Map<Seq<char>, Texture>;

    closed spec fn view(&self) -> Map<Seq<char>, Texture> {
        self.textures@
    }
}

impl ResourceManager {
    /// A manager without textures.
    pub fn new() -> (m: ResourceManager)
        ensures
            m@ == Map::<Seq<char>, Texture>::empty(),
    {
        ResourceManager { textures: StringHashMap::new() }
    }

    /// Keeps decoded pixels under `name`. A texture that was kept under the
    /// same name before is replaced.
    pub fn load_texture(&mut self, name: &str, width: u32, height: u32, data: Vec<u8>)
        ensures
            final(self)@ == old(self)@.insert(name@, (Texture { width, height, data })),
    {
        self.textures.insert(name.to_owned(), Texture { width, height, data });
    }

    /// The texture kept under `name`, if there is one.
    pub fn get_texture(&self, name: &str) -> (found: Option<&Texture>)
        ensures
            found.is_some() == self@.contains_key(name@),
            found.is_some() ==> *found.unwrap() == self@[name@],
    {
        self.textures.get(name)
    }
}

/// The byte at place `i` of an image of one colour: the channels of the
/// colour come round every four bytes.
pub open spec fn solid_byte(r: u8, g: u8, b: u8, a: u8, i: int) -> u8 {
    if i % 4 == 0 {
        r
    } else if i % 4 == 1 {
        g
    } else if i % 4 == 2 {
        b
    } else {
        a
    }
}

/// The pixels of an image of `width` by `height` in which every pixel has
/// the colour `(r, g, b, a)`.
pub fn create_solid_texture(r: u8, g: u8, b: u8, a: u8, width: u32, height: u32) -> (data: Vec<u8>)
    requires
        width * height * 4 <= u32::MAX,
    ensures
        data@.len() == width * height * 4,
        forall|i: int| 0 <= i < data@.len() ==> data@[i] == solid_byte(r, g, b, a, i),
{
    assert(width * height <= u32::MAX) by (nonlinear_arith)
        requires
            width * height * 4 <= u32::MAX,
    ;
    let pixels: u32 = width * height;
    let mut data: Vec<u8> = Vec::new();
    let mut n: u32 = 0;
    while n < pixels
        invariant
            n <= pixels,
            data@.len() == n * 4,
            forall|i: int| 0 <= i < data@.len() ==> data@[i] == solid_byte(r, g, b, a, i),
        decreases pixels - n,
    {
        data.push(r);
        data.push(g);
        data.push(b);
        data.push(a);
        n += 1;
    }
    data
}

} // verus!
