use vstd::prelude::*;
use crate::asset::Handle;
use crate::bind::{GetBytes, ShaderDefSuffixProvider};
use crate::color::{words_layout, Color};

verus! {

/// The kind of asset a texture source names; the texture itself lives in an
/// asset table and is bound through a slot of its own.
#[derive(Clone, Copy, Debug)]
pub struct Texture;

/// A value that can be bound to a shader slot: an inline colour, or a
/// texture kept in an asset table and named by its handle.
#[derive(Clone, Copy, Debug)]
pub enum ColorSource {
    Color(Color),
    Texture(Handle<Texture>),
}

/// The shader-variant symbol of a source; it depends on the variant alone.
pub open spec fn shader_def_of(s: ColorSource) -> Seq<char> {
    match s {
        ColorSource::Color(_) => "_COLOR"@,
        ColorSource::Texture(_) => "_TEXTURE"@,
    }
}

/// The uniform payload of a source: a colour's sixteen bytes; nothing for a
/// texture, which is bound through a slot of its own.
pub open spec fn payload_of(s: ColorSource) -> Seq<u8> {
    match s {
        ColorSource::Color(c) => c.layout(),
        ColorSource::Texture(_) => Seq::empty(),
    }
}

impl ShaderDefSuffixProvider for ColorSource {
    open spec fn shader_def(&self) -> Option<Seq<char>> {
        Some(shader_def_of(*self))
    }

    /// The preprocessor symbol that selects the shader variant for this
    /// source: `_COLOR` for a colour, `_TEXTURE` for a texture.
    fn get_shader_def(&self) -> (r: Option<&'static str>)
        ensures
            r matches Some(s) && s@ == shader_def_of(*self),
    {
        match self {
            ColorSource::Color(_) => Some("_COLOR"),
            ColorSource::Texture(_) => Some("_TEXTURE"),
        }
    }
}

impl GetBytes for ColorSource {
    open spec fn payload(&self) -> Seq<u8> {
        payload_of(*self)
    }

    /// The uniform payload as an owned buffer: a colour's sixteen bytes, or
    /// nothing for a texture.
    fn get_bytes(&self) -> (r: Vec<u8>) {
        match self {
            ColorSource::Color(c) => c.get_bytes(),
            ColorSource::Texture(h) => h.get_bytes(),
        }
    }

    /// The uniform payload borrowed from the source's own memory, where such
    /// a view exists: a colour's view as `Color::get_bytes_ref` gives it; a
    /// texture has none.
    fn get_bytes_ref(&self) -> (r: Option<&[u8]>)
        ensures
            self matches ColorSource::Color(c) ==> (r is None ==> words_layout(c@, false) != c.layout()),
            self is Texture ==> r is None,
    {
        match self {
            ColorSource::Color(c) => c.get_bytes_ref(),
            ColorSource::Texture(h) => h.get_bytes_ref(),
        }
    }
}

impl From<Color> for ColorSource {
    /// A colour binds as a constant.
    fn from(c: Color) -> (r: ColorSource) {
        ColorSource::Color(c)
    }
}

impl vstd::std_specs::convert::FromSpecImpl<Color> for ColorSource {
    open spec fn obeys_from_spec() -> bool {
        true
    }

    open spec fn from_spec(c: Color) -> ColorSource {
        ColorSource::Color(c)
    }
}

impl From<Handle<Texture>> for ColorSource {
    /// A handle binds as a texture.
    fn from(h: Handle<Texture>) -> (r: ColorSource) {
        ColorSource::Texture(h)
    }
}

impl vstd::std_specs::convert::FromSpecImpl<Handle<Texture>> for ColorSource {
    open spec fn obeys_from_spec() -> bool {
        true
    }

    open spec fn from_spec(h: Handle<Texture>) -> ColorSource {
        ColorSource::Texture(h)
    }
}

/// The payload of a constant is always sixteen bytes and that of a texture
/// always empty, whatever the colour or the handle.
pub proof fn lemma_payload_length(c: Color, h: Handle<Texture>)
    ensures
        ColorSource::Color(c).payload().len() == 16,
        ColorSource::Texture(h).payload().len() == 0,
        payload_of(ColorSource::Color(c)).len() == 16,
        payload_of(ColorSource::Texture(h)).len() == 0,
{
}

/// The shader symbol depends on the variant alone: every constant reports
/// `_COLOR` and every texture `_TEXTURE`, whatever the payload.
pub proof fn lemma_shader_def_by_variant(c1: Color, c2: Color, h1: Handle<Texture>, h2: Handle<Texture>)
    ensures
        ColorSource::Color(c1).shader_def() == Some("_COLOR"@),
        ColorSource::Texture(h1).shader_def() == Some("_TEXTURE"@),
        shader_def_of(ColorSource::Color(c1)) == "_COLOR"@,
        shader_def_of(ColorSource::Color(c1)) == shader_def_of(ColorSource::Color(c2)),
        shader_def_of(ColorSource::Texture(h1)) == "_TEXTURE"@,
        shader_def_of(ColorSource::Texture(h1)) == shader_def_of(ColorSource::Texture(h2)),
{
}

} // verus!
