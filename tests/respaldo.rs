use inventario::marca::Marca;
use inventario::respaldo::{
    cabecera_valida, extension_aceptada, nombre_de_respaldo, plan_reemplazo, plan_respaldo,
    desenlace, seguir_tras, tabla_faltante, validar_importacion, Accion, Desenlace, ErrorImportacion, ErrorRespaldo,
    Lectura, Paso, PasoValidacion,
};

fn cabecera_buena() -> Vec<u8> {
    let mut b = b"SQLite format 3\0".to_vec();
    b.extend_from_slice(&[0u8; 84]);
    b
}

fn todas_las_tablas() -> Vec<String> {
    ["categorias", "productos", "ventas", "productos_vendidos", "perfil"].iter().map(|s| s.to_string()).collect()
}

fn codigo_de(p: PasoValidacion) -> String {
    match p {
        PasoValidacion::Rechazar(e) => e.codigo(),
        otro => panic!("se esperaba un rechazo: {:?}", otro),
    }
}

fn marca() -> Marca {
    Marca::nueva(2024, 3, 5, 7, 8, 9).unwrap()
}

#[test]
fn archivo_inexistente() {
    let p = validar_importacion("/tmp/no_existe.db", false, &None, &Lectura::Pendiente);
    assert_eq!(codigo_de(p), "FILE_NOT_FOUND");
}

#[test]
fn archivo_de_texto() {
    let p = validar_importacion("/tmp/notas.txt", true, &None, &Lectura::Pendiente);
    assert_eq!(codigo_de(p), "INVALID_EXTENSION");
    let p = validar_importacion("/tmp/db", true, &None, &Lectura::Pendiente);
    assert_eq!(codigo_de(p), "INVALID_EXTENSION");
}

#[test]
fn extension_en_mayusculas_pide_la_cabecera() {
    let p = validar_importacion("/tmp/copia.DB", true, &None, &Lectura::Pendiente);
    assert!(matches!(p, PasoValidacion::LeerCabecera));
}

#[test]
fn bytes_al_azar() {
    let basura: Vec<u8> = (0u8..64).map(|i| i.wrapping_mul(37).wrapping_add(11)).collect();
    let p = validar_importacion("/tmp/copia.db", true, &Some(basura), &Lectura::Pendiente);
    assert_eq!(codigo_de(p), "NOT_SQLITE");
    let corta = b"SQLite format".to_vec();
    let p = validar_importacion("/tmp/copia.db", true, &Some(corta), &Lectura::Pendiente);
    assert_eq!(codigo_de(p), "NOT_SQLITE");
}

#[test]
fn cabecera_buena_pide_las_tablas() {
    let p = validar_importacion("/tmp/copia.db", true, &Some(cabecera_buena()), &Lectura::Pendiente);
    assert!(matches!(p, PasoValidacion::ListarTablas));
    let p = validar_importacion("/tmp/copia.db", true, &Some(cabecera_buena()), &Lectura::Fallida);
    assert_eq!(codigo_de(p), "CORRUPT_DB");
}

#[test]
fn falta_la_tabla_de_ventas() {
    let mut tablas = todas_las_tablas();
    tablas.retain(|t| t != "ventas");
    let p = validar_importacion("/tmp/copia.db", true, &Some(cabecera_buena()), &Lectura::Hecha(tablas));
    assert_eq!(codigo_de(p), "MISSING_TABLE:ventas");
}

#[test]
fn almacen_valido_se_acepta() {
    let p = validar_importacion("/tmp/copia.db", true, &Some(cabecera_buena()), &Lectura::Hecha(todas_las_tablas()));
    assert!(matches!(p, PasoValidacion::Aceptar));
}

#[test]
fn comprobaciones_sueltas() {
    assert!(extension_aceptada(&Some("db".to_string())));
    assert!(extension_aceptada(&Some("dB".to_string())));
    assert!(!extension_aceptada(&Some("dbx".to_string())));
    assert!(!extension_aceptada(&None));
    assert!(cabecera_valida(&cabecera_buena()));
    assert!(!cabecera_valida(&b"SQLite format 4\0".to_vec()));
    assert_eq!(tabla_faltante(&vec![]), Some("categorias"));
    assert_eq!(tabla_faltante(&todas_las_tablas()), None);
    assert_eq!(ErrorImportacion::FaltaTabla { tabla: "productos" }.codigo(), "MISSING_TABLE:productos");
}

#[test]
fn respaldo_de_un_almacen_inexistente() {
    assert!(matches!(plan_respaldo("/datos/inventario.db", "/copias/c.db", false), Err(ErrorRespaldo::BaseNoExiste)));
}

#[test]
fn respaldo_hace_checkpoint_y_copia() {
    let plan = plan_respaldo("/datos/inventario.db", "/copias/c.db", true).unwrap();
    assert_eq!(plan.len(), 2);
    assert!(matches!(&plan[0].accion, Accion::Checkpoint { ruta } if ruta == "/datos/inventario.db"));
    assert!(matches!(&plan[1].accion, Accion::CopiarRespaldo { desde, hacia }
        if desde == "/datos/inventario.db" && hacia == "/copias/c.db"));
    assert!(plan.iter().all(|p| p.critico));
}

#[test]
fn nombre_del_respaldo_lleva_la_fecha() {
    assert_eq!(nombre_de_respaldo(&marca()), "inventario_pre_import_20240305_070809.db");
    let m = Marca::nueva(987, 12, 31, 23, 59, 58).unwrap();
    assert_eq!(nombre_de_respaldo(&m), "inventario_pre_import_09871231_235958.db");
}

#[test]
fn fechas_invalidas_no_dan_marca() {
    assert!(Marca::nueva(2023, 2, 29, 0, 0, 0).is_none());
    assert!(Marca::nueva(2024, 2, 29, 0, 0, 0).is_some());
    assert!(Marca::nueva(1900, 2, 29, 0, 0, 0).is_none());
    assert!(Marca::nueva(2000, 2, 29, 0, 0, 0).is_some());
    assert!(Marca::nueva(2024, 4, 31, 0, 0, 0).is_none());
    assert!(Marca::nueva(2024, 13, 1, 0, 0, 0).is_none());
    assert!(Marca::nueva(2024, 1, 1, 24, 0, 0).is_none());
    assert!(Marca::nueva(10000, 1, 1, 0, 0, 0).is_none());
}

fn respaldos(plan: &[Paso]) -> Vec<(String, String)> {
    plan.iter()
        .filter_map(|p| match &p.accion {
            Accion::CopiarRespaldo { desde, hacia } => Some((desde.clone(), hacia.clone())),
            _ => None,
        })
        .collect()
}

#[test]
fn reemplazo_deja_un_solo_respaldo_en_el_mismo_directorio() {
    let plan = plan_reemplazo("/datos/inventario.db", "/descargas/otra.db", true, &marca());
    assert_eq!(plan.len(), 6);
    assert_eq!(
        respaldos(&plan),
        vec![("/datos/inventario.db".to_string(), "/datos/inventario_pre_import_20240305_070809.db".to_string())]
    );
    assert!(matches!(&plan[0].accion, Accion::Checkpoint { ruta } if ruta == "/datos/inventario.db"));
    assert!(matches!(&plan[2].accion, Accion::Sobrescribir { desde, hacia }
        if desde == "/descargas/otra.db" && hacia == "/datos/inventario.db"));
    assert!(matches!(&plan[3].accion, Accion::Borrar { ruta } if ruta == "/datos/inventario.db-wal"));
    assert!(matches!(&plan[4].accion, Accion::Borrar { ruta } if ruta == "/datos/inventario.db-shm"));
    assert!(matches!(&plan[5].accion, Accion::Reinicializar { ruta } if ruta == "/datos/inventario.db"));
    let criticos: Vec<bool> = plan.iter().map(|p| p.critico).collect();
    assert_eq!(criticos, vec![true, true, true, false, false, true]);
}

#[test]
fn reemplazo_sin_almacen_previo_no_respalda() {
    let plan = plan_reemplazo("inventario.db", "otra.db", false, &marca());
    assert_eq!(plan.len(), 4);
    assert!(respaldos(&plan).is_empty());
    let plan = plan_reemplazo("inventario.db", "otra.db", true, &marca());
    assert_eq!(respaldos(&plan)[0].1, "inventario_pre_import_20240305_070809.db");
}

#[test]
fn un_paso_critico_fallido_detiene_la_operacion() {
    let plan = plan_reemplazo("/datos/inventario.db", "/descargas/otra.db", true, &marca());
    assert!(!seguir_tras(&plan[1], false));
    assert!(seguir_tras(&plan[1], true));
    assert!(seguir_tras(&plan[3], false));
}

#[test]
fn desenlace_de_una_ejecucion() {
    let plan = plan_reemplazo("/datos/inventario.db", "/descargas/otra.db", true, &marca());
    assert_eq!(desenlace(&plan, &vec![true; 6]), Ok(Desenlace::Completo));
    assert_eq!(desenlace(&plan, &vec![true, true, true, false, true, true]), Ok(Desenlace::Degradado));
    assert_eq!(desenlace(&plan, &vec![true, false]), Err(1));
    assert_eq!(desenlace(&plan, &vec![true, true, true, false, false, false]), Err(5));
    assert_eq!(desenlace(&plan, &vec![]), Ok(Desenlace::Completo));
}
