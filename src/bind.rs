use vstd::prelude::*;

verus! {

/// A value whose bytes can fill a uniform buffer. The owned form is always
/// there; the borrowed form only where the value's own memory already holds
/// those bytes, and then it holds exactly them.
pub trait GetBytes {
    /// The bytes of the value's payload.
    spec fn payload(&self) -> Seq<u8>;

    /// The payload as an owned buffer.
    fn get_bytes(&self) -> (r: Vec<u8>)
        ensures
            r@ == self.payload(),
    ;

    /// The payload borrowed from the value's own memory, where it is laid
    /// out there; on `None` a caller falls back to `get_bytes`.
    fn get_bytes_ref(&self) -> (r: Option<&[u8]>)
        ensures
            r matches Some(v) ==> v@ == self.payload(),
    ;
}

/// A value bound into a shader pipeline that may select one compiled
/// variant of the shader by naming a preprocessor symbol.
pub trait ShaderDefSuffixProvider {
    /// The symbol the value names, if it takes part in variant selection.
    spec fn shader_def(&self) -> Option<Seq<char>>;

    fn get_shader_def(&self) -> (r: Option<&'static str>)
        ensures
            r is Some == self.shader_def() is Some,
            r matches Some(s) ==> self.shader_def() == Some(s@),
    ;
}

/// Whatever type gives the two forms, a borrowed view that is given equals
/// the owned buffer byte for byte.
pub proof fn lemma_view_matches_owned<T: GetBytes>(x: T, owned: Seq<u8>, view: Seq<u8>)
    requires
        owned == x.payload(),
        view == x.payload(),
    ensures
        view == owned,
{
}

} // verus!
