use inventario::models::{default_activo, TipoPago};

#[test]
fn tipo_de_pago_como_texto() {
    assert_eq!(TipoPago::Abono.como_texto(), "Abono");
    assert_eq!(TipoPago::Contado.como_texto(), "De Contado");
    assert_eq!(TipoPago::desde_texto("Abono"), TipoPago::Abono);
    assert_eq!(TipoPago::desde_texto("De Contado"), TipoPago::Contado);
    assert_eq!(TipoPago::desde_texto("otro"), TipoPago::Contado);
}

#[test]
fn activo_por_defecto() {
    assert_eq!(default_activo(), 1);
}
