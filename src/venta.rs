use vstd::prelude::*;
use crate::models::{ItemVenta, TipoPago, VentaCompletaInput, VentaCompletaOutput};

verus! {

/// What the sale recorder reads of a product before a sale.
pub struct ProductoEnStock {
    pub id_producto: i64,
    pub nombre_producto: String,
    pub stock: i64,
}

/// Why a sale is refused. Each is found before anything is written.
#[derive(Debug)]
pub enum ErrorVenta {
    /// The sale has no line.
    SinProductos,
    /// A line asks for a quantity that is not positive, or a negative price.
    ItemInvalido { id_producto: i64 },
    /// A line names a product that does not exist.
    ProductoNoEncontrado { id_producto: i64 },
    /// A line asks for more than what is left of the product's stock after the
    /// earlier lines of the sale; `disponible` is the product's stock.
    StockInsuficiente { nombre_producto: String, disponible: i64, solicitado: i64 },
    /// The sale's total in cents does not fit in an `i64`.
    TotalFueraDeRango,
}

/// A line item row to insert, with the product's current name as its snapshot.
#[derive(Debug)]
pub struct LineaVenta {
    pub id_producto: i64,
    pub nombre_producto_snapshot: String,
    pub cantidad: i64,
    pub precio_unitario: i64,
    pub subtotal: i64,
}

/// The stock that a product is left with after the sale.
#[derive(Debug)]
pub struct AjusteStock {
    pub id_producto: i64,
    pub stock_nuevo: i64,
}

/// Every write of one sale, to be made in a single transaction: one sale header,
/// one row per line, one stock update per product sold.
#[derive(Debug)]
pub struct PlanVenta {
    pub fecha: String,
    pub nombre_clienta: String,
    pub tipo_pago: TipoPago,
    pub total_venta: i64,
    pub lineas: Vec<LineaVenta>,
    pub ajustes: Vec<AjusteStock>,
}

/// `k` is the first position of the catalog that holds product `id`.
pub open spec fn es_primero(cat: Seq<ProductoEnStock>, id: i64, k: int) -> bool {
    &&& 0 <= k < cat.len()
    &&& cat[k].id_producto == id
    &&& forall|j: int| 0 <= j < k ==> cat[j].id_producto != id
}

/// The position of product `id` in the catalog, or -1 where it is absent.
pub open spec fn indice_de(cat: Seq<ProductoEnStock>, id: i64) -> int {
    if exists|k: int| es_primero(cat, id, k) {
        choose|k: int| es_primero(cat, id, k)
    } else {
        -1
    }
}

/// The quantity of product `id` that the first `n` lines ask for.
pub open spec fn pedido(items: Seq<ItemVenta>, id: i64, n: nat) -> int
    decreases n,
{
    if n == 0 {
        0
    } else {
        pedido(items, id, (n - 1) as nat) + if items[n - 1].id_producto == id {
            items[n - 1].cantidad as int
        } else {
            0
        }
    }
}

/// The sum of quantity times unit price over the first `n` lines.
pub open spec fn suma_total(items: Seq<ItemVenta>, n: nat) -> int
    decreases n,
{
    if n == 0 {
        0
    } else {
        suma_total(items, (n - 1) as nat) + items[n - 1].cantidad * items[n - 1].precio_unitario
    }
}

/// The sum of the subtotals of line rows.
pub open spec fn suma_subtotales(lineas: Seq<LineaVenta>) -> int
    decreases lineas.len(),
{
    if lineas.len() == 0 {
        0
    } else {
        suma_subtotales(lineas.drop_last()) + lineas.last().subtotal
    }
}

/// The refusal that line `i` causes, given the lines before it.
pub open spec fn fallo_en(items: Seq<ItemVenta>, cat: Seq<ProductoEnStock>, i: int) -> Option<ErrorVenta> {
    let it = items[i];
    if it.cantidad <= 0 || it.precio_unitario < 0 {
        Some(ErrorVenta::ItemInvalido { id_producto: it.id_producto })
    } else if indice_de(cat, it.id_producto) < 0 {
        Some(ErrorVenta::ProductoNoEncontrado { id_producto: it.id_producto })
    } else {
        let p = cat[indice_de(cat, it.id_producto)];
        let antes = pedido(items, it.id_producto, i as nat);
        if antes + it.cantidad > p.stock {
            Some(
                ErrorVenta::StockInsuficiente {
                    nombre_producto: p.nombre_producto,
                    disponible: p.stock,
                    solicitado: it.cantidad,
                },
            )
        } else {
            None
        }
    }
}

/// The first refusal among the first `n` lines.
pub open spec fn primer_fallo(items: Seq<ItemVenta>, cat: Seq<ProductoEnStock>, n: nat) -> Option<ErrorVenta>
    decreases n,
{
    if n == 0 {
        None
    } else {
        match primer_fallo(items, cat, (n - 1) as nat) {
            Some(e) => Some(e),
            None => fallo_en(items, cat, n - 1),
        }
    }
}

/// The refusal of a whole sale, if any: no line; else the first line that fails;
/// else a total too large to hold.
pub open spec fn error_venta(items: Seq<ItemVenta>, cat: Seq<ProductoEnStock>) -> Option<ErrorVenta> {
    if items.len() == 0 {
        Some(ErrorVenta::SinProductos)
    } else {
        match primer_fallo(items, cat, items.len()) {
            Some(e) => Some(e),
            None => if suma_total(items, items.len()) > i64::MAX {
                Some(ErrorVenta::TotalFueraDeRango)
            } else {
                None
            },
        }
    }
}

/// Some of the first `n` lines sell product `id`.
pub open spec fn afectado(items: Seq<ItemVenta>, id: i64, n: nat) -> bool {
    exists|i: int| 0 <= i < n && items[i].id_producto == id
}

/// Some stock update is for product `id`.
pub open spec fn tiene_ajuste(aj: Seq<AjusteStock>, id: i64) -> bool {
    exists|j: int| 0 <= j < aj.len() && aj[j].id_producto == id
}

/// The stock updates after the first `n` lines: one per product sold, none for
/// another, each leaving the product's stock less what those lines ask for it.
pub open spec fn ajustes_de(
    aj: Seq<AjusteStock>,
    items: Seq<ItemVenta>,
    cat: Seq<ProductoEnStock>,
    n: nat,
) -> bool {
    &&& forall|j: int| 0 <= j < aj.len() ==> #[trigger] afectado(items, aj[j].id_producto, n)
    &&& forall|j: int|
        0 <= j < aj.len() ==> indice_de(cat, #[trigger] aj[j].id_producto) >= 0 && aj[j].stock_nuevo
            == cat[indice_de(cat, aj[j].id_producto)].stock - pedido(items, aj[j].id_producto, n)
    &&& forall|i: int| 0 <= i < n ==> #[trigger] tiene_ajuste(aj, items[i].id_producto)
    &&& forall|j1: int, j2: int|
        0 <= j1 < j2 < aj.len() ==> #[trigger] aj[j1].id_producto != #[trigger] aj[j2].id_producto
}

/// Line row `l` records line `it`, with the current name of its product.
pub open spec fn linea_de(l: LineaVenta, it: ItemVenta, cat: Seq<ProductoEnStock>) -> bool {
    &&& l.id_producto == it.id_producto
    &&& l.nombre_producto_snapshot == cat[indice_de(cat, it.id_producto)].nombre_producto
    &&& l.cantidad == it.cantidad
    &&& l.precio_unitario == it.precio_unitario
    &&& l.subtotal == it.cantidad * it.precio_unitario
}

/// `plan` holds exactly the writes of sale `input` against catalog `cat`.
pub open spec fn plan_de(plan: PlanVenta, input: VentaCompletaInput, cat: Seq<ProductoEnStock>) -> bool {
    let items = input.productos@;
    &&& plan.fecha == input.fecha
    &&& plan.nombre_clienta == input.nombre_clienta
    &&& plan.tipo_pago == input.tipo_pago
    &&& plan.lineas@.len() == items.len()
    &&& forall|i: int| 0 <= i < items.len() ==> linea_de(#[trigger] plan.lineas@[i], items[i], cat)
    &&& plan.total_venta == suma_subtotales(plan.lineas@)
    &&& plan.total_venta == suma_total(items, items.len())
    &&& ajustes_de(plan.ajustes@, items, cat, items.len())
}

proof fn lema_primero_unico(cat: Seq<ProductoEnStock>, id: i64, k: int)
    requires
        es_primero(cat, id, k),
    ensures
        indice_de(cat, id) == k,
{
    let c = choose|c: int| es_primero(cat, id, c);
    assert(es_primero(cat, id, c));
    if c < k {
        assert(cat[c].id_producto != id);
    } else if k < c {
        assert(cat[k].id_producto != id);
    }
}

proof fn lema_ausente(cat: Seq<ProductoEnStock>, id: i64)
    requires
        forall|j: int| 0 <= j < cat.len() ==> cat[j].id_producto != id,
    ensures
        indice_de(cat, id) == -1,
{
    if exists|k: int| es_primero(cat, id, k) {
        let k = choose|k: int| es_primero(cat, id, k);
        assert(cat[k].id_producto != id);
    }
}

proof fn lema_fallo_persiste(items: Seq<ItemVenta>, cat: Seq<ProductoEnStock>, a: nat, b: nat)
    requires
        a <= b,
        primer_fallo(items, cat, a) is Some,
    ensures
        primer_fallo(items, cat, b) == primer_fallo(items, cat, a),
    decreases b - a,
{
    if a < b {
        lema_fallo_persiste(items, cat, a, (b - 1) as nat);
    }
}

proof fn lema_suma_crece(items: Seq<ItemVenta>, a: nat, b: nat)
    requires
        a <= b <= items.len(),
        forall|i: int| 0 <= i < items.len() ==> items[i].cantidad > 0 && items[i].precio_unitario >= 0,
    ensures
        suma_total(items, a) <= suma_total(items, b),
    decreases b - a,
{
    if a < b {
        lema_suma_crece(items, a, (b - 1) as nat);
        let c = items[b - 1].cantidad as int;
        let p = items[b - 1].precio_unitario as int;
        assert(c * p >= 0) by (nonlinear_arith)
            requires
                c > 0,
                p >= 0,
        ;
    }
}

proof fn lema_pedido_cero(items: Seq<ItemVenta>, id: i64, n: nat)
    requires
        n <= items.len(),
        forall|k: int| 0 <= k < n ==> items[k].id_producto != id,
    ensures
        pedido(items, id, n) == 0,
    decreases n,
{
    if n > 0 {
        lema_pedido_cero(items, id, (n - 1) as nat);
    }
}

proof fn lema_pedido_no_negativo(items: Seq<ItemVenta>, id: i64, n: nat)
    requires
        n <= items.len(),
        forall|k: int| 0 <= k < n ==> items[k].cantidad > 0,
    ensures
        pedido(items, id, n) >= 0,
    decreases n,
{
    if n > 0 {
        lema_pedido_no_negativo(items, id, (n - 1) as nat);
    }
}

/// Finds the first catalog entry for product `id`.
fn buscar_producto(cat: &Vec<ProductoEnStock>, id: i64) -> (r: Option<usize>)
    ensures
        match r {
            Some(k) => k < cat@.len() && indice_de(cat@, id) == k as int,
            None => indice_de(cat@, id) == -1,
        },
{
    let mut k: usize = 0;
    while k < cat.len()
        invariant
            k <= cat@.len(),
            forall|j: int| 0 <= j < k ==> cat@[j].id_producto != id,
        decreases cat@.len() - k,
    {
        if cat[k].id_producto == id {
            proof {
                lema_primero_unico(cat@, id, k as int);
            }
            return Some(k);
        }
        k = k + 1;
    }
    proof {
        lema_ausente(cat@, id);
    }
    None
}

/// Finds the stock update for product `id`.
fn buscar_ajuste(aj: &Vec<AjusteStock>, id: i64) -> (r: Option<usize>)
    ensures
        match r {
            Some(j) => j < aj@.len() && aj@[j as int].id_producto == id,
            None => !tiene_ajuste(aj@, id),
        },
{
    let mut j: usize = 0;
    while j < aj.len()
        invariant
            j <= aj@.len(),
            forall|m: int| 0 <= m < j ==> aj@[m].id_producto != id,
        decreases aj@.len() - j,
    {
        if aj[j].id_producto == id {
            return Some(j);
        }
        j = j + 1;
    }
    None
}

/// Validates sale `input` against the products it names, as read before the sale,
/// and returns every write that recording it takes.
///
/// Lines are checked in order; for each, in turn: quantity and price, that the
/// product exists, and that the quantity fits in what the earlier lines of this
/// sale left of its stock. The first failure is returned, and no plan with it.
pub fn planificar_venta(input: &VentaCompletaInput, catalogo: &Vec<ProductoEnStock>) -> (r: Result<PlanVenta, ErrorVenta>)
    ensures
        match error_venta(input.productos@, catalogo@) {
            Some(e) => r == Err::<PlanVenta, ErrorVenta>(e),
            None => r is Ok && plan_de(r->Ok_0, *input, catalogo@),
        },
{
    let items = &input.productos;
    let n = items.len();
    if n == 0 {
        return Err(ErrorVenta::SinProductos);
    }
    let ghost its = items@;
    let ghost cat = catalogo@;
    let mut ajustes: Vec<AjusteStock> = Vec::new();
    let mut indices: Vec<usize> = Vec::new();
    let mut i: usize = 0;
    while i < n
        invariant
            n == its.len(),
            its == input.productos@,
            cat == catalogo@,
            items == &input.productos,
            0 < n,
            i <= n,
            primer_fallo(its, cat, i as nat) is None,
            indices@.len() == i,
            forall|k: int| 0 <= k < i ==> (#[trigger] indices@[k]) < cat.len() && indices@[k] as int == indice_de(cat, its[k].id_producto),
            forall|k: int| 0 <= k < i ==> (#[trigger] its[k]).cantidad > 0 && its[k].precio_unitario >= 0,
            ajustes_de(ajustes@, its, cat, i as nat),
        decreases n - i,
    {
        let it = &items[i];
        let id = it.id_producto;
        if it.cantidad <= 0 || it.precio_unitario < 0 {
            proof {
                lema_fallo_persiste(its, cat, (i + 1) as nat, n as nat);
            }
            return Err(ErrorVenta::ItemInvalido { id_producto: id });
        }
        let k = match buscar_producto(catalogo, id) {
            Some(k) => k,
            None => {
                proof {
                    lema_fallo_persiste(its, cat, (i + 1) as nat, n as nat);
                }
                return Err(ErrorVenta::ProductoNoEncontrado { id_producto: id });
            },
        };
        let p = &catalogo[k];
        proof {
            lema_pedido_no_negativo(its, id, i as nat);
        }
        let pos = buscar_ajuste(&ajustes, id);
        let disponible: i64 = match pos {
            Some(j) => ajustes[j].stock_nuevo,
            None => {
                proof {
                    assert forall|m: int| 0 <= m < i implies its[m].id_producto != id by {
                        if its[m].id_producto == id {
                            assert(tiene_ajuste(ajustes@, its[m].id_producto));
                        }
                    }
                    lema_pedido_cero(its, id, i as nat);
                }
                p.stock
            },
        };
        assert(disponible == p.stock - pedido(its, id, i as nat));
        if it.cantidad > disponible {
            proof {
                lema_fallo_persiste(its, cat, (i + 1) as nat, n as nat);
            }
            return Err(
                ErrorVenta::StockInsuficiente {
                    nombre_producto: p.nombre_producto.clone(),
                    disponible: p.stock,
                    solicitado: it.cantidad,
                },
            );
        }
        let nuevo: i64 = disponible - it.cantidad;
        let ghost viejos = ajustes@;
        assert(pedido(its, id, (i + 1) as nat) == pedido(its, id, i as nat) + it.cantidad);
        assert forall|y: i64| y != id implies pedido(its, y, (i + 1) as nat) == pedido(its, y, i as nat) by {}
        assert forall|y: i64| afectado(its, y, i as nat) implies afectado(its, y, (i + 1) as nat) by {
            let w = choose|w: int| 0 <= w < i && its[w].id_producto == y;
            assert(0 <= w < i + 1 && its[w].id_producto == y);
        }
        assert(afectado(its, id, (i + 1) as nat)) by {
            assert(0 <= i < i + 1 && its[i as int].id_producto == id);
        }
        match pos {
            Some(j) => {
                ajustes.set(j, AjusteStock { id_producto: id, stock_nuevo: nuevo });
                assert forall|m: int| 0 <= m < i + 1 implies #[trigger] tiene_ajuste(ajustes@, its[m].id_producto) by {
                    if m < i {
                        assert(tiene_ajuste(viejos, its[m].id_producto));
                        let w = choose|w: int| 0 <= w < viejos.len() && viejos[w].id_producto == its[m].id_producto;
                        assert(ajustes@[w].id_producto == its[m].id_producto);
                    } else {
                        assert(ajustes@[j as int].id_producto == its[m].id_producto);
                    }
                }
                assert forall|w: int| 0 <= w < ajustes@.len() implies indice_de(cat, #[trigger] ajustes@[w].id_producto) >= 0
                    && ajustes@[w].stock_nuevo == cat[indice_de(cat, ajustes@[w].id_producto)].stock
                    - pedido(its, ajustes@[w].id_producto, (i + 1) as nat) by {
                    if w != j {
                        assert(viejos[w] == ajustes@[w]);
                        assert(indice_de(cat, viejos[w].id_producto) >= 0);
                    }
                }
                assert forall|w: int| 0 <= w < ajustes@.len() implies #[trigger] afectado(its, ajustes@[w].id_producto, (i + 1) as nat) by {
                    assert(ajustes@[w].id_producto == viejos[w].id_producto);
                    assert(afectado(its, viejos[w].id_producto, i as nat));
                }
                assert forall|w1: int, w2: int| 0 <= w1 < w2 < ajustes@.len() implies #[trigger] ajustes@[w1].id_producto
                    != #[trigger] ajustes@[w2].id_producto by {
                    assert(ajustes@[w1].id_producto == viejos[w1].id_producto);
                    assert(ajustes@[w2].id_producto == viejos[w2].id_producto);
                }
            },
            None => {
                ajustes.push(AjusteStock { id_producto: id, stock_nuevo: nuevo });
                assert forall|m: int| 0 <= m < i + 1 implies #[trigger] tiene_ajuste(ajustes@, its[m].id_producto) by {
                    if m < i {
                        assert(tiene_ajuste(viejos, its[m].id_producto));
                        let w = choose|w: int| 0 <= w < viejos.len() && viejos[w].id_producto == its[m].id_producto;
                        assert(ajustes@[w].id_producto == its[m].id_producto);
                    } else {
                        assert(ajustes@[viejos.len() as int].id_producto == its[m].id_producto);
                    }
                }
                assert forall|w: int| 0 <= w < ajustes@.len() implies indice_de(cat, #[trigger] ajustes@[w].id_producto) >= 0
                    && ajustes@[w].stock_nuevo == cat[indice_de(cat, ajustes@[w].id_producto)].stock
                    - pedido(its, ajustes@[w].id_producto, (i + 1) as nat) by {
                    if w < viejos.len() {
                        assert(viejos[w] == ajustes@[w]);
                        assert(indice_de(cat, viejos[w].id_producto) >= 0);
                        assert(viejos[w].id_producto != id);
                    }
                }
                assert forall|w: int| 0 <= w < ajustes@.len() implies #[trigger] afectado(its, ajustes@[w].id_producto, (i + 1) as nat) by {
                    if w < viejos.len() {
                        assert(ajustes@[w].id_producto == viejos[w].id_producto);
                        assert(afectado(its, viejos[w].id_producto, i as nat));
                    }
                }
                assert forall|w1: int, w2: int| 0 <= w1 < w2 < ajustes@.len() implies #[trigger] ajustes@[w1].id_producto
                    != #[trigger] ajustes@[w2].id_producto by {
                    assert(ajustes@[w1].id_producto == viejos[w1].id_producto);
                    if w2 < viejos.len() {
                        assert(ajustes@[w2].id_producto == viejos[w2].id_producto);
                    } else {
                        assert(viejos[w1].id_producto != id);
                    }
                }
            },
        }
        indices.push(k);
        i = i + 1;
    }
    let mut lineas: Vec<LineaVenta> = Vec::new();
    let mut total: i64 = 0;
    proof {
        lema_suma_crece(its, 0, n as nat);
    }
    let mut i: usize = 0;
    while i < n
        invariant
            n == its.len(),
            its == input.productos@,
            cat == catalogo@,
            items == &input.productos,
            i <= n,
            primer_fallo(its, cat, n as nat) is None,
            indices@.len() == n,
            forall|k: int| 0 <= k < n ==> (#[trigger] indices@[k]) < cat.len() && indices@[k] as int == indice_de(cat, its[k].id_producto),
            forall|k: int| 0 <= k < n ==> (#[trigger] its[k]).cantidad > 0 && its[k].precio_unitario >= 0,
            total == suma_total(its, i as nat),
            total >= 0,
            total == suma_subtotales(lineas@),
            lineas@.len() == i,
            forall|k: int| 0 <= k < i ==> linea_de(#[trigger] lineas@[k], its[k], cat),
        decreases n - i,
    {
        let it = &items[i];
        let c = it.cantidad;
        let pu = it.precio_unitario;
        assert(0 <= (c as int) * (pu as int) <= (i64::MAX as int) * (i64::MAX as int)) by (nonlinear_arith)
            requires
                0 < c <= i64::MAX,
                0 <= pu <= i64::MAX,
        ;
        let sub: i128 = (c as i128) * (pu as i128);
        let suma: i128 = (total as i128) + sub;
        if suma > i64::MAX as i128 {
            proof {
                lema_suma_crece(its, (i + 1) as nat, n as nat);
            }
            return Err(ErrorVenta::TotalFueraDeRango);
        }
        proof {
            lema_suma_crece(its, 0, (i + 1) as nat);
        }
        let linea = LineaVenta {
            id_producto: it.id_producto,
            nombre_producto_snapshot: catalogo[indices[i]].nombre_producto.clone(),
            cantidad: c,
            precio_unitario: pu,
            subtotal: sub as i64,
        };
        let ghost previas = lineas@;
        lineas.push(linea);
        assert(lineas@.drop_last() == previas);
        total = suma as i64;
        i = i + 1;
    }
    Ok(PlanVenta {
        fecha: input.fecha.clone(),
        nombre_clienta: input.nombre_clienta.clone(),
        tipo_pago: input.tipo_pago,
        total_venta: total,
        lineas,
        ajustes,
    })
}

proof fn lema_sin_fallo(items: Seq<ItemVenta>, cat: Seq<ProductoEnStock>, n: nat)
    requires
        n <= items.len(),
        primer_fallo(items, cat, n) is None,
    ensures
        forall|k: int| 0 <= k < n ==> #[trigger] fallo_en(items, cat, k) is None,
    decreases n,
{
    if n > 0 {
        lema_sin_fallo(items, cat, (n - 1) as nat);
    }
}

/// A sale in which some line asks for more of a product than the product's stock
/// before the sale is refused: `planificar_venta` then returns an error and no
/// plan, so nothing of the sale is written.
pub proof fn ley_stock_insuficiente_rechaza(items: Seq<ItemVenta>, cat: Seq<ProductoEnStock>, i: int)
    requires
        0 <= i < items.len(),
        indice_de(cat, items[i].id_producto) >= 0,
        items[i].cantidad > cat[indice_de(cat, items[i].id_producto)].stock,
    ensures
        error_venta(items, cat) is Some,
{
    if primer_fallo(items, cat, i as nat) is None {
        lema_sin_fallo(items, cat, i as nat);
        assert forall|k: int| 0 <= k < i implies items[k].cantidad > 0 by {
            assert(fallo_en(items, cat, k) is None);
        }
        lema_pedido_no_negativo(items, items[i].id_producto, i as nat);
        assert(fallo_en(items, cat, i) is Some);
    }
    assert(primer_fallo(items, cat, (i + 1) as nat) is Some);
    lema_fallo_persiste(items, cat, (i + 1) as nat, items.len());
}

/// What a recorded sale reports: its id, its total, and how many lines were written.
pub fn salida_venta(plan: &PlanVenta, id_venta: i64) -> (r: VentaCompletaOutput)
    ensures
        r.id_venta == id_venta,
        r.total_venta == plan.total_venta,
        r.items_insertados == plan.lineas@.len(),
{
    VentaCompletaOutput { id_venta, total_venta: plan.total_venta, items_insertados: plan.lineas.len() }
}

} // verus!
