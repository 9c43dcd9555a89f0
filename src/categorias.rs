use vstd::prelude::*;

verus! {

/// What deleting a category does to the products that refer to it.
#[derive(Clone, Copy, PartialEq, Eq, Structural, Debug)]
pub enum PoliticaBorrado {
    /// The products keep existing, without a category.
    AnularReferencias,
    /// The deletion is refused while any product refers to the category.
    RechazarSiSeUsa,
}

/// What a category deletion does, once the products that refer to it are counted.
#[derive(Clone, Copy, PartialEq, Eq, Structural, Debug)]
pub enum DecisionBorrado {
    /// Delete the category; first clear the references to it where asked.
    Borrar { anular_referencias: bool },
    /// Refuse: this many products refer to the category.
    Rechazar { productos: u64 },
}

/// Decides a category deletion under `politica`, given how many products refer
/// to the category. Products are never deleted with their category.
pub fn decidir_borrado_categoria(politica: PoliticaBorrado, productos_con_categoria: u64) -> (r: DecisionBorrado)
    ensures
        r == match politica {
            PoliticaBorrado::AnularReferencias => DecisionBorrado::Borrar {
                anular_referencias: productos_con_categoria > 0,
            },
            PoliticaBorrado::RechazarSiSeUsa => if productos_con_categoria > 0 {
                DecisionBorrado::Rechazar { productos: productos_con_categoria }
            } else {
                DecisionBorrado::Borrar { anular_referencias: false }
            },
        },
{
    match politica {
        PoliticaBorrado::AnularReferencias => DecisionBorrado::Borrar { anular_referencias: productos_con_categoria > 0 },
        PoliticaBorrado::RechazarSiSeUsa => {
            if productos_con_categoria > 0 {
                DecisionBorrado::Rechazar { productos: productos_con_categoria }
            } else {
                DecisionBorrado::Borrar { anular_referencias: false }
            }
        },
    }
}

} // verus!
