use hipotecas::{importe_cuota_mensual, Cuota, Fecha, Hipoteca, Novacion};

fn create_sample_hipoteca() -> Hipoteca {
    let nombre = String::from("Prueba");
    let fecha = Fecha::new(2004, 3, 17);
    Hipoteca::new(
        nombre,
        fecha,
        Fecha::new(2004, 4, 17),
        1000000,
        4000,
        5,
        1,
        2,
        0,
        0,
        12000,
        Some(Fecha::new(2018, 5, 17)),
        Some(Fecha::new(2022, 8, 5)),
    )
    .unwrap()
}

#[test]
fn test_indice_primera_cuota_novada() {
    let h = create_sample_hipoteca();
    let nov = Novacion::new(Fecha::new(2003, 4, 17), 0);
    assert_eq!(Some(0), h.indice_primera_cuota_novada(&nov));
    let nov = Novacion::new(Fecha::new(2004, 4, 17), 0);
    assert_eq!(Some(1), h.indice_primera_cuota_novada(&nov));
    let nov = Novacion::new(Fecha::new(2004, 6, 20), 0);
    assert_eq!(Some(3), h.indice_primera_cuota_novada(&nov));
    let nov = Novacion::new(Fecha::new(2004, 8, 17), 0);
    assert_eq!(None, h.indice_primera_cuota_novada(&nov));
    let nov = Novacion::new(Fecha::new(2005, 4, 17), 0);
    assert_eq!(None, h.indice_primera_cuota_novada(&nov));
}

#[test]
fn hipoteca_test_new() {
    let h = create_sample_hipoteca();
    assert_eq!(5, h.tabla_amort_sin_actualizacion.len());
    assert_eq!(5, h.tabla_amort_con_actualizacion_euribor.len());
    assert_eq!(2, h.fechas_revisiones.len());
}

#[test]
fn test_calcula_fechas_revisiones() {
    let mut h = create_sample_hipoteca();
    h.calcula_fechas_revisiones();
    assert_eq!(2, h.fechas_revisiones.len());
    h.intervalo_revisiones = 1;
    h.calcula_fechas_revisiones();
    assert_eq!(4, h.fechas_revisiones.len());
}

#[test]
fn test_calcula_tabla_impago() {
    let nombre = String::from("Prueba");
    let fecha = Fecha::new(2004, 3, 17);
    let mut h1 = Hipoteca::new(
        nombre,
        fecha,
        Fecha::new(2004, 4, 17),
        8414000,
        4000,
        300,
        6,
        12,
        1000,
        4000,
        12000,
        Some(Fecha::new(2018, 5, 17)),
        Some(Fecha::new(2022, 8, 5)),
    )
    .unwrap();
    h1.tabla_amort_impago = h1.calcula_tabla_impago().unwrap();
    assert!(h1.tabla_amort_impago.len() > 0);
}

#[test]
fn test_importe_cuota_mensual() {
    let x = importe_cuota_mensual(8414000, 4000, 300).unwrap();
    assert_eq!(44412, x);
}

#[test]
fn test_calcula_tabla_amort_sin_actualizacion() {
    let nombre = String::from("Prueba");
    let fecha = Fecha::new(2004, 3, 17);
    let h1 = Hipoteca::new(
        nombre,
        fecha,
        Fecha::new(2004, 4, 17),
        8414000,
        4000,
        300,
        6,
        12,
        1000,
        4000,
        12000,
        Some(Fecha::new(2018, 5, 17)),
        Some(Fecha::new(2022, 8, 5)),
    )
    .unwrap();
    assert_eq!(300, h1.tabla_amort_sin_actualizacion.len());
    let cuota: &Cuota = &h1.tabla_amort_sin_actualizacion.cuotas[0];
    assert_eq!(Fecha::new(2004, 4, 17), cuota.fecha);
    assert_eq!(4000, cuota.i);
    assert_eq!(300, cuota.meses_restantes_antes);
    assert_eq!(44412, cuota.cuota_total);
    assert_eq!(16365, cuota.cuota_capital);
    assert_eq!(28047, cuota.cuota_interes);
    let mes = usize::try_from(h1.meses_hasta_primera_revision).ok().unwrap();
    let cuota: &Cuota = &h1.tabla_amort_sin_actualizacion.cuotas[mes - 1];
    assert_eq!(Fecha::new(2004, 9, 17), cuota.fecha);
    assert_eq!(4000, cuota.i);
    assert_eq!(295, cuota.meses_restantes_antes);
    assert_eq!(44412, cuota.cuota_total);
    assert_eq!(16640, cuota.cuota_capital);
    assert_eq!(27772, cuota.cuota_interes);
    let mes = usize::try_from(h1.meses).ok().unwrap();
    let cuota: &Cuota = &h1.tabla_amort_sin_actualizacion.cuotas[mes - 1];
    assert_eq!(Fecha::new(2029, 3, 17), cuota.fecha);
    assert_eq!(4000, cuota.i);
    assert_eq!(1, cuota.meses_restantes_antes);
    assert_eq!(44512, cuota.cuota_total);
    assert_eq!(44364, cuota.cuota_capital);
    assert_eq!(148, cuota.cuota_interes);
}

#[test]
fn test_calcula_tabla_amort_con_actualizacion_euribor() {
    let h1 = create_sample_hipoteca();
    assert_eq!(5, h1.tabla_amort_con_actualizacion_euribor.len());
    assert_eq!(
        0,
        h1.tabla_amort_con_actualizacion_euribor
            .cuotas
            .last()
            .unwrap()
            .cap_pendiente_despues()
    );
}

#[test]
fn test_fecha_ultimo_vencimiento() {
    let nombre = String::from("Prueba");
    let fecha = Fecha::new(2004, 3, 17);
    let h1 = Hipoteca::new(
        nombre,
        fecha,
        Fecha::new(2004, 4, 17),
        8414000,
        4000,
        300,
        6,
        12,
        1000,
        4000,
        12000,
        Some(Fecha::new(2018, 5, 17)),
        Some(Fecha::new(2022, 8, 5)),
    )
    .unwrap();
    assert_eq!(Fecha::new(2029, 3, 17), h1.fecha_ultimo_vencimiento());
}
