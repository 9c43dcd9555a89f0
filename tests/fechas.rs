use inventario::fechas::normalize_fecha;

#[test]
fn fecha_iso_con_milisegundos_y_zona() {
    assert_eq!(normalize_fecha("2024-01-02T03:04:05.123Z"), "2024-01-02 03:04:05");
    assert_eq!(normalize_fecha("2024-01-02T03:04:05Z"), "2024-01-02 03:04:05");
    assert_eq!(normalize_fecha("2024-01-02T03:04:05ZZ"), "2024-01-02 03:04:05");
}

#[test]
fn fecha_con_espacio() {
    assert_eq!(normalize_fecha("2024-01-02 03:04:05.5"), "2024-01-02 03:04:05");
    assert_eq!(normalize_fecha("2024-01-02 03:04:05"), "2024-01-02 03:04:05");
}

#[test]
fn fecha_sin_hora_queda_igual() {
    assert_eq!(normalize_fecha("2024-01-02"), "2024-01-02");
    assert_eq!(normalize_fecha(""), "");
}
