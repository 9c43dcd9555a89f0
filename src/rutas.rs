use vstd::prelude::*;

verus! {

/// What `Path::extension` gives for a path.
pub uninterp spec fn extension_de_ruta(ruta: Seq<char>) -> Option<Seq<char>>;

/// What `Path::parent` gives for a path.
pub uninterp spec fn padre_de_ruta(ruta: Seq<char>) -> Option<Seq<char>>;

/// What `Path::join` gives for a directory and a file name.
pub uninterp spec fn union_de_rutas(dir: Seq<char>, nombre: Seq<char>) -> Seq<char>;

/// What `Path::with_extension` gives for a path and an extension.
pub uninterp spec fn ruta_con_extension(ruta: Seq<char>, ext: Seq<char>) -> Seq<char>;

/// Relies on `std::path::Path::extension`: the extension of the path's file name.
#[verifier::external_body]
pub(crate) fn extension(ruta: &str) -> (r: Option<String>)
    ensures
        match r {
            Some(e) => extension_de_ruta(ruta@) == Some(e@),
            None => extension_de_ruta(ruta@) is None,
        },
{
    std::path::Path::new(ruta).extension().map(|e| e.to_string_lossy().into_owned())
}

/// Relies on `std::path::Path::parent`: the path without its last component.
#[verifier::external_body]
pub(crate) fn padre(ruta: &str) -> (r: Option<String>)
    ensures
        match r {
            Some(p) => padre_de_ruta(ruta@) == Some(p@),
            None => padre_de_ruta(ruta@) is None,
        },
{
    std::path::Path::new(ruta).parent().map(|p| p.to_string_lossy().into_owned())
}

/// Relies on `std::path::Path::join`: file `nombre` inside directory `dir`.
#[verifier::external_body]
pub(crate) fn unir(dir: &str, nombre: &str) -> (r: String)
    ensures
        r@ == union_de_rutas(dir@, nombre@),
{
    std::path::Path::new(dir).join(nombre).to_string_lossy().into_owned()
}

/// Relies on `std::path::Path::with_extension`: the path with its extension
/// replaced. It panics where the extension holds a path separator, so that
/// is left out.
#[verifier::external_body]
pub(crate) fn con_extension(ruta: &str, ext: &str) -> (r: String)
    requires
        forall|i: int| 0 <= i < ext@.len() ==> ext@[i] != '/' && ext@[i] != '\\',
    ensures
        r@ == ruta_con_extension(ruta@, ext@),
{
    std::path::Path::new(ruta).with_extension(ext).to_string_lossy().into_owned()
}

} // verus!
