use vstd::prelude::*;

verus! {

/// A category of products; products refer to it weakly.
#[derive(Debug)]
pub struct Categoria {
    pub id_categoria: i64,
    pub nombre: String,
}

/// How a sale is paid: on credit (`Abono`) or in full (`Contado`).
#[derive(Clone, Copy, PartialEq, Eq, Structural, Debug)]
pub enum TipoPago {
    Abono,
    Contado,
}

/// The text under which a payment type is stored.
pub open spec fn tipo_pago_texto(t: TipoPago) -> Seq<char> {
    match t {
        TipoPago::Abono => "Abono"@,
        TipoPago::Contado => "De Contado"@,
    }
}

/// The payment type that a stored text denotes; any text but `Abono` reads as paid in full.
pub open spec fn tipo_pago_de_texto(s: Seq<char>) -> TipoPago {
    if s == "Abono"@ {
        TipoPago::Abono
    } else {
        TipoPago::Contado
    }
}

impl TipoPago {
    /// The text stored for this payment type.
    pub fn como_texto(&self) -> (r: &'static str)
        ensures
            r@ == tipo_pago_texto(*self),
    {
        match self {
            TipoPago::Abono => "Abono",
            TipoPago::Contado => "De Contado",
        }
    }

    /// Reads a stored payment type back.
    pub fn desde_texto(s: &str) -> (r: TipoPago)
        ensures
            r == tipo_pago_de_texto(s@),
    {
        if crate::texto::mismo_texto(s, "Abono") {
            TipoPago::Abono
        } else {
            TipoPago::Contado
        }
    }
}

/// The value of the active flag of a product that does not state one.
pub fn default_activo() -> (r: i64)
    ensures
        r == 1,
{
    1
}

/// A product. Money amounts are in cents.
#[derive(Debug)]
pub struct Producto {
    pub id_producto: i64,
    pub nombre_producto: String,
    pub id_categoria: Option<i64>,
    pub ruta_imagen: Option<String>,
    pub miniatura_base64: Option<String>,
    pub stock: i64,
    pub precio: i64,
    pub creado_at: Option<String>,
    pub actualizado_at: Option<String>,
    pub activo: i64,
}

/// A sale header. `total_venta` is in cents.
#[derive(Debug)]
pub struct Venta {
    pub id_venta: i64,
    pub fecha: String,
    pub nombre_clienta: String,
    pub total_venta: i64,
    pub tipo_pago: TipoPago,
}

/// A line item of a sale, with the product's name as it was when sold.
/// Money amounts are in cents.
#[derive(Debug)]
pub struct ProductoVendido {
    pub id_producto_vendido: i64,
    pub id_venta: i64,
    pub id_producto: i64,
    pub nombre_producto_snapshot: String,
    pub cantidad: i64,
    pub precio_unitario: i64,
    pub subtotal: i64,
}

/// One requested line of a sale. `precio_unitario` is in cents.
#[derive(Debug)]
pub struct ItemVenta {
    pub id_producto: i64,
    pub nombre_producto: String,
    pub cantidad: i64,
    pub precio_unitario: i64,
}

/// A complete sale as requested: header data and its ordered lines.
#[derive(Debug)]
pub struct VentaCompletaInput {
    pub fecha: String,
    pub nombre_clienta: String,
    pub tipo_pago: TipoPago,
    pub productos: Vec<ItemVenta>,
}

/// What a recorded sale reports back. `total_venta` is in cents.
#[derive(Debug)]
pub struct VentaCompletaOutput {
    pub id_venta: i64,
    pub total_venta: i64,
    pub items_insertados: usize,
}

/// A best-selling product: units sold and revenue in cents.
#[derive(Debug)]
pub struct TopProducto {
    pub nombre: String,
    pub unidades: i64,
    pub ingreso: i64,
}

/// The single profile record.
#[derive(Debug)]
pub struct Perfil {
    pub id: i64,
    pub nombre: String,
    pub cargo: String,
    pub ruta_foto: Option<String>,
    pub miniatura_base64: Option<String>,
}

} // verus!
