use inventario::models::{ItemVenta, TipoPago, VentaCompletaInput};
use inventario::venta::{planificar_venta, salida_venta, ErrorVenta, PlanVenta, ProductoEnStock};

fn item(id: i64, cantidad: i64, precio: i64) -> ItemVenta {
    ItemVenta { id_producto: id, nombre_producto: format!("pedido {}", id), cantidad, precio_unitario: precio }
}

fn producto(id: i64, nombre: &str, stock: i64) -> ProductoEnStock {
    ProductoEnStock { id_producto: id, nombre_producto: nombre.to_string(), stock }
}

fn venta(items: Vec<ItemVenta>) -> VentaCompletaInput {
    VentaCompletaInput {
        fecha: "2024-05-01 10:00:00".to_string(),
        nombre_clienta: "Ana".to_string(),
        tipo_pago: TipoPago::Contado,
        productos: items,
    }
}

fn stock_final(plan: &PlanVenta, id: i64) -> Option<i64> {
    plan.ajustes.iter().find(|a| a.id_producto == id).map(|a| a.stock_nuevo)
}

#[test]
fn venta_de_dos_productos_suma_25_y_descuenta_stock() {
    let input = venta(vec![item(1, 2, 1000), item(2, 1, 500)]);
    let cat = vec![producto(1, "Taza", 5), producto(2, "Plato", 1)];
    let plan = planificar_venta(&input, &cat).unwrap();
    assert_eq!(plan.total_venta, 2500);
    assert_eq!(plan.lineas.len(), 2);
    assert_eq!(plan.lineas[0].subtotal, 2000);
    assert_eq!(plan.lineas[1].subtotal, 500);
    assert_eq!(plan.lineas.iter().map(|l| l.subtotal).sum::<i64>(), plan.total_venta);
    assert_eq!(stock_final(&plan, 1), Some(3));
    assert_eq!(stock_final(&plan, 2), Some(0));
    assert_eq!(plan.ajustes.len(), 2);
    assert_eq!(plan.fecha, "2024-05-01 10:00:00");
    assert_eq!(plan.nombre_clienta, "Ana");
    assert_eq!(plan.tipo_pago, TipoPago::Contado);
    let salida = salida_venta(&plan, 7);
    assert_eq!(salida.id_venta, 7);
    assert_eq!(salida.total_venta, 2500);
    assert_eq!(salida.items_insertados, 2);
}

#[test]
fn la_linea_guarda_el_nombre_actual_del_producto() {
    let input = venta(vec![item(4, 1, 300)]);
    let cat = vec![producto(4, "Jarra azul", 2)];
    let plan = planificar_venta(&input, &cat).unwrap();
    assert_eq!(plan.lineas[0].nombre_producto_snapshot, "Jarra azul");
    assert_eq!(plan.lineas[0].id_producto, 4);
    assert_eq!(plan.lineas[0].cantidad, 1);
    assert_eq!(plan.lineas[0].precio_unitario, 300);
}

#[test]
fn venta_sin_lineas_se_rechaza() {
    let input = venta(vec![]);
    let cat = vec![producto(1, "Taza", 5)];
    assert!(matches!(planificar_venta(&input, &cat), Err(ErrorVenta::SinProductos)));
}

#[test]
fn producto_inexistente_se_nombra() {
    let input = venta(vec![item(1, 1, 100), item(9, 1, 100)]);
    let cat = vec![producto(1, "Taza", 5)];
    assert!(matches!(
        planificar_venta(&input, &cat),
        Err(ErrorVenta::ProductoNoEncontrado { id_producto: 9 })
    ));
}

#[test]
fn stock_insuficiente_no_da_plan() {
    let input = venta(vec![item(1, 2, 1000), item(2, 3, 500)]);
    let cat = vec![producto(1, "Taza", 5), producto(2, "Plato", 1)];
    match planificar_venta(&input, &cat) {
        Err(ErrorVenta::StockInsuficiente { nombre_producto, disponible, solicitado }) => {
            assert_eq!(nombre_producto, "Plato");
            assert_eq!(disponible, 1);
            assert_eq!(solicitado, 3);
        }
        otro => panic!("se esperaba stock insuficiente: {:?}", otro),
    }
}

#[test]
fn lineas_repetidas_cuentan_juntas_contra_el_stock() {
    let input = venta(vec![item(1, 3, 100), item(1, 3, 100)]);
    let cat = vec![producto(1, "Taza", 5)];
    match planificar_venta(&input, &cat) {
        Err(ErrorVenta::StockInsuficiente { disponible, solicitado, .. }) => {
            assert_eq!(disponible, 5);
            assert_eq!(solicitado, 3);
        }
        otro => panic!("se esperaba stock insuficiente: {:?}", otro),
    }
    let input = venta(vec![item(1, 3, 100), item(1, 2, 100)]);
    let plan = planificar_venta(&input, &cat).unwrap();
    assert_eq!(plan.ajustes.len(), 1);
    assert_eq!(stock_final(&plan, 1), Some(0));
    assert_eq!(plan.total_venta, 500);
}

#[test]
fn el_disponible_informado_es_el_stock_del_producto() {
    let input = venta(vec![item(1, 2, 100), item(1, 6, 100)]);
    let cat = vec![producto(1, "Taza", 5)];
    match planificar_venta(&input, &cat) {
        Err(ErrorVenta::StockInsuficiente { nombre_producto, disponible, solicitado }) => {
            assert_eq!(nombre_producto, "Taza");
            assert_eq!(disponible, 5);
            assert_eq!(solicitado, 6);
        }
        otro => panic!("se esperaba stock insuficiente: {:?}", otro),
    }
}

#[test]
fn cantidad_no_positiva_se_rechaza() {
    let input = venta(vec![item(1, 0, 100)]);
    let cat = vec![producto(1, "Taza", 5)];
    assert!(matches!(planificar_venta(&input, &cat), Err(ErrorVenta::ItemInvalido { id_producto: 1 })));
    let input = venta(vec![item(1, 1, -5)]);
    assert!(matches!(planificar_venta(&input, &cat), Err(ErrorVenta::ItemInvalido { id_producto: 1 })));
}

#[test]
fn el_primer_fallo_en_orden_gana() {
    let input = venta(vec![item(9, 1, 100), item(1, 50, 100)]);
    let cat = vec![producto(1, "Taza", 5)];
    assert!(matches!(
        planificar_venta(&input, &cat),
        Err(ErrorVenta::ProductoNoEncontrado { id_producto: 9 })
    ));
}

#[test]
fn total_que_no_cabe_se_rechaza() {
    let input = venta(vec![item(1, 2, i64::MAX)]);
    let cat = vec![producto(1, "Taza", 10)];
    assert!(matches!(planificar_venta(&input, &cat), Err(ErrorVenta::TotalFueraDeRango)));
    let input = venta(vec![item(1, 1, i64::MAX)]);
    let plan = planificar_venta(&input, &cat).unwrap();
    assert_eq!(plan.total_venta, i64::MAX);
}
