use hipotecas::{calcula_tabla_amortizacion, Cuota, Fecha, Hipoteca, TablaAmortizacion};

fn create_sample_table() -> TablaAmortizacion {
    let nombre = String::from("Prueba");
    let fecha = Fecha::new(2004, 3, 17);
    let h1 = Hipoteca::new(
        nombre,
        fecha,
        Fecha::new(2004, 4, 17),
        1000000,
        4000,
        5,
        1,
        2,
        0,
        0,
        12000,
        Some(Fecha::new(2018, 5, 17)),
        Some(Fecha::new(2022, 8, 5)),
    )
    .unwrap();
    h1.tabla_amort_sin_actualizacion
}

#[test]
fn test_push_tabla() {
    let mut t1 = create_sample_table();
    let t2 = create_sample_table();
    t1.push_tabla(&t2);
    assert_eq!(t2.len() * 2, t1.len());
}

#[test]
fn test_clone() {
    let t = create_sample_table();
    let t2 = t.clone();
    assert_eq!(t.len(), t2.len());
    for i in 0..t2.len() {
        assert_eq!(t.cuotas[i].fecha, t2.cuotas[i].fecha);
        assert_eq!(t.cuotas[i].cap_pendiente_antes, t2.cuotas[i].cap_pendiente_antes);
        assert_eq!(t.cuotas[i].cuota_total, t2.cuotas[i].cuota_total);
    }
}

#[test]
fn test_tabla_desde_fecha_incluida() {
    let tabla = create_sample_table();
    let tabla_result = tabla.tabla_desde_fecha_incluida(Fecha::new(2004, 7, 15));
    assert_eq!(2, tabla_result.len());
    let tabla_result = tabla.tabla_desde_fecha_incluida(Fecha::new(2004, 7, 17));
    assert_eq!(2, tabla_result.len());
    let tabla_result = tabla.tabla_desde_fecha_incluida(Fecha::new(2005, 7, 15));
    assert_eq!(0, tabla_result.len());
    let tabla_result = tabla.tabla_desde_fecha_incluida(Fecha::new(2001, 7, 15));
    assert_eq!(5, tabla_result.len());
}

#[test]
fn test_tabla_desde_fecha_excluida() {
    let tabla = create_sample_table();
    let tabla_result = tabla.tabla_desde_fecha_excluida(Fecha::new(2004, 7, 15));
    assert_eq!(2, tabla_result.len());
    let tabla_result = tabla.tabla_desde_fecha_excluida(Fecha::new(2004, 7, 17));
    assert_eq!(1, tabla_result.len());
    let tabla_result = tabla.tabla_desde_fecha_excluida(Fecha::new(2005, 7, 15));
    assert_eq!(0, tabla_result.len());
    let tabla_result = tabla.tabla_desde_fecha_excluida(Fecha::new(2001, 7, 15));
    assert_eq!(5, tabla_result.len());
}

#[test]
fn test_tabla_hasta_fecha_incluida() {
    let tabla = create_sample_table();
    let tabla_result = tabla.tabla_hasta_fecha_incluida(Fecha::new(2004, 7, 15));
    assert_eq!(3, tabla_result.len());
    let tabla_result = tabla.tabla_hasta_fecha_incluida(Fecha::new(2004, 7, 17));
    assert_eq!(4, tabla_result.len());
    let tabla_result = tabla.tabla_hasta_fecha_incluida(Fecha::new(2005, 7, 15));
    assert_eq!(5, tabla_result.len());
    let tabla_result = tabla.tabla_hasta_fecha_incluida(Fecha::new(2004, 3, 17));
    assert_eq!(0, tabla_result.len());
}

#[test]
fn test_tabla_hasta_fecha_excluida() {
    let tabla = create_sample_table();
    let tabla_result = tabla.tabla_hasta_fecha_excluida(Fecha::new(2004, 7, 15));
    assert_eq!(3, tabla_result.len());
    let tabla_result = tabla.tabla_hasta_fecha_excluida(Fecha::new(2004, 7, 17));
    assert_eq!(3, tabla_result.len());
    let tabla_result = tabla.tabla_hasta_fecha_excluida(Fecha::new(2005, 7, 15));
    assert_eq!(5, tabla_result.len());
    let tabla_result = tabla.tabla_hasta_fecha_excluida(Fecha::new(2004, 3, 17));
    assert_eq!(0, tabla_result.len());
}

#[test]
fn tabla_amort_test_new() {
    let tabla = TablaAmortizacion::new();
    assert_eq!(0, tabla.cuotas.len());
}

#[test]
fn test_len() {
}

#[test]
fn test_push() {
    let mut tabla = TablaAmortizacion::new();
    let cuota = Cuota::new(Fecha::new(2004, 4, 17), 4000, 300, 8414000, 44412, 16365, 28047);
    tabla.push(cuota);
    assert_eq!(1, tabla.len());
}

#[test]
fn tabla_amort_test_actualiza_euribor() {
    let nombre = String::from("Prueba");
    let fecha = Fecha::new(2004, 3, 17);
    let h1 = Hipoteca::new(
        nombre,
        fecha,
        Fecha::new(2004, 4, 17),
        1000000,
        4000,
        5,
        1,
        2,
        0,
        0,
        12000,
        Some(Fecha::new(2018, 5, 17)),
        Some(Fecha::new(2022, 8, 5)),
    )
    .unwrap();
    let tabla_actualizada = h1
        .tabla_amort_sin_actualizacion
        .actualiza_euribor(Fecha::new(2004, 5, 17), 0, 0, 12000)
        .unwrap();
    assert_eq!(5, tabla_actualizada.len());
}

#[test]
fn test_calcula_tabla_amortizacion() {
    let capital: i64 = 1000000;
    let interes: i64 = 10000;
    let meses: i32 = 60;
    let fecha_primera_cuota = Fecha::new(2022, 5, 12);
    let tabla_amort = calcula_tabla_amortizacion(capital, interes, meses, fecha_primera_cuota).unwrap();
    assert_eq!(60, tabla_amort.len());
}
