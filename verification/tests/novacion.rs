use hipotecas::{Fecha, Novacion};

#[test]
fn novacion_test_new() {
    let fecha = Fecha::new(2006, 6, 22);
    let incremento = 3249824;
    let nova1 = Novacion::new(fecha, incremento);
    assert_eq!(Fecha::new(2006, 6, 22), nova1.fecha_novacion);
    assert_eq!(3249824, nova1.incremento_capital);
}
