use hipotecas::{Cuota, Fecha};

#[test]
fn cuota_test_new() {
    let cuota = Cuota::new(Fecha::new(2004, 4, 17), 4000, 300, 8414000, 44412, 16365, 28047);
    assert_eq!(2004, cuota.fecha.agno);
    assert_eq!(4, cuota.fecha.mes);
    assert_eq!(17, cuota.fecha.dia);
    assert_eq!(8414000, cuota.cap_pendiente_antes);
    assert_eq!(4000, cuota.i);
    assert_eq!(300, cuota.meses_restantes_antes);
}

#[test]
fn test_cuota_pendiente_despues() {
    let cuota = Cuota::new(Fecha::new(2004, 4, 17), 4000, 300, 8414000, 44412, 16365, 28047);
    assert_eq!(8397635, cuota.cap_pendiente_despues());
}
