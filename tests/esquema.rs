use inventario::esquema::{
    paso_pendiente, pasos_migracion, planificar_migracion, sentencias_apertura, tiene_columna,
    tiene_tabla, TablaExistente, ESQUEMA_INICIAL, PRAGMAS_CONEXION,
};

fn tabla(nombre: &str, columnas: &[&str]) -> TablaExistente {
    TablaExistente { nombre: nombre.to_string(), columnas: columnas.iter().map(|c| c.to_string()).collect() }
}

fn esquema_antiguo() -> Vec<TablaExistente> {
    vec![
        tabla("categorias", &["id_categoria", "nombre"]),
        tabla("productos", &["id_producto", "nombre_producto", "stock", "precio"]),
        tabla("ventas", &["id_venta", "fecha", "nombre_clienta", "total_venta", "tipo_pago"]),
        tabla("productos_vendidos", &["id_producto_vendido", "id_venta", "id_producto", "cantidad"]),
    ]
}

/// The schema that running `pasos` leaves.
fn aplicar(esquema: &mut Vec<TablaExistente>, pasos: &[inventario::esquema::PasoMigracion]) {
    for p in pasos {
        match p.columna {
            Some(c) => {
                let t = esquema.iter_mut().find(|t| t.nombre == p.tabla).unwrap();
                t.columnas.push(c.to_string());
            }
            None => esquema.push(tabla(p.tabla, &["id", "nombre", "cargo", "ruta_foto", "miniatura_base64"])),
        }
    }
}

#[test]
fn un_almacen_antiguo_necesita_todos_los_pasos() {
    let pasos = pasos_migracion();
    let plan = planificar_migracion(&pasos, &esquema_antiguo());
    assert_eq!(plan.len(), 4);
    assert_eq!(plan[0].columna, Some("miniatura_base64"));
    assert_eq!(plan[1].columna, Some("nombre_producto_snapshot"));
    assert!(plan[1].relleno.is_some());
    assert_eq!(plan[2].columna, Some("activo"));
    assert_eq!(plan[3].tabla, "perfil");
    assert_eq!(plan[3].columna, None);
}

#[test]
fn migrar_dos_veces_no_cambia_nada() {
    let pasos = pasos_migracion();
    let mut esquema = esquema_antiguo();
    let primera = planificar_migracion(&pasos, &esquema);
    aplicar(&mut esquema, &primera);
    let segunda = planificar_migracion(&pasos, &esquema);
    assert!(segunda.is_empty());
    let cols: Vec<usize> = esquema.iter().map(|t| t.columnas.len()).collect();
    aplicar(&mut esquema, &segunda);
    assert_eq!(cols, esquema.iter().map(|t| t.columnas.len()).collect::<Vec<_>>());
}

#[test]
fn solo_los_pasos_que_faltan() {
    let pasos = pasos_migracion();
    let mut esquema = esquema_antiguo();
    esquema[1].columnas.push("activo".to_string());
    esquema.push(tabla("perfil", &["id"]));
    let plan = planificar_migracion(&pasos, &esquema);
    assert_eq!(plan.len(), 2);
    assert_eq!(plan[0].columna, Some("miniatura_base64"));
    assert_eq!(plan[1].columna, Some("nombre_producto_snapshot"));
    assert!(!paso_pendiente(&esquema, &pasos[2]));
    assert!(paso_pendiente(&esquema, &pasos[0]));
}

#[test]
fn columnas_y_tablas_se_buscan_por_nombre() {
    let esquema = esquema_antiguo();
    assert!(tiene_tabla(&esquema, "ventas"));
    assert!(!tiene_tabla(&esquema, "perfil"));
    assert!(tiene_columna(&esquema, "productos", "stock"));
    assert!(!tiene_columna(&esquema, "ventas", "stock"));
    assert!(!tiene_columna(&esquema, "productos", "activo"));
}

#[test]
fn un_almacen_nuevo_recibe_el_esquema_completo() {
    let nueva = sentencias_apertura(true);
    assert_eq!(nueva, vec![PRAGMAS_CONEXION, ESQUEMA_INICIAL]);
    let existente = sentencias_apertura(false);
    assert_eq!(existente, vec![PRAGMAS_CONEXION]);
    assert!(PRAGMAS_CONEXION.contains("foreign_keys = ON"));
    assert!(PRAGMAS_CONEXION.contains("journal_mode = WAL"));
}

#[test]
fn los_pasos_solo_agregan() {
    let pasos = pasos_migracion();
    assert_eq!(pasos[0].sentencia, "ALTER TABLE productos ADD COLUMN miniatura_base64 TEXT");
    assert!(pasos[1].sentencia.starts_with("ALTER TABLE productos_vendidos ADD COLUMN nombre_producto_snapshot"));
    assert!(pasos[1].relleno.unwrap().starts_with("UPDATE productos_vendidos SET nombre_producto_snapshot = (SELECT nombre_producto FROM productos"));
    assert_eq!(pasos[2].sentencia, "ALTER TABLE productos ADD COLUMN activo INTEGER NOT NULL DEFAULT 1");
    assert!(pasos[3].sentencia.starts_with("CREATE TABLE IF NOT EXISTS perfil"));
    assert!(pasos[0].relleno.is_none() && pasos[2].relleno.is_none() && pasos[3].relleno.is_none());
    let objetivos: Vec<(&str, Option<&str>)> = pasos.iter().map(|p| (p.tabla, p.columna)).collect();
    for a in 0..objetivos.len() {
        for b in (a + 1)..objetivos.len() {
            assert_ne!(objetivos[a], objetivos[b]);
        }
    }
}
