use hipotecas::{
    add_n_months, add_one_month, calcula_tabla_amortizacion, divide_redondeando,
    importe_cuota_mensual, mes_anterior, ErrorHipoteca, EuriborData, Fecha, Hipoteca,
    TablaAmortizacion,
};

fn hipoteca_con_impago() -> Hipoteca {
    Hipoteca::new(
        String::from("Impago"),
        Fecha::new(2004, 3, 17),
        Fecha::new(2004, 4, 17),
        8414000,
        4000,
        300,
        6,
        12,
        1000,
        4000,
        12000,
        Some(Fecha::new(2018, 5, 17)),
        Some(Fecha::new(2022, 8, 5)),
    )
    .unwrap()
}

#[test]
fn suma_capitales_es_el_capital_prestado() {
    let tabla = calcula_tabla_amortizacion(1000000, 4000, 60, Fecha::new(2022, 5, 12)).unwrap();
    assert_eq!(60, tabla.len());
    let mut suma: i64 = 0;
    for cuota in tabla.cuotas.iter() {
        suma += cuota.cuota_capital;
    }
    assert_eq!(1000000, suma);
    assert_eq!(0, tabla.cuotas.last().unwrap().cap_pendiente_despues());
}

#[test]
fn un_mes_compuesto_coincide_con_add_one_month() {
    let fechas = [
        Fecha::new(2022, 1, 31),
        Fecha::new(2000, 1, 29),
        Fecha::new(2022, 12, 10),
        Fecha::new(2021, 2, 28),
    ];
    for f in fechas {
        assert_eq!(add_one_month(f), add_n_months(f, 1));
    }
    assert_eq!(Fecha::new(2022, 2, 28), add_one_month(Fecha::new(2022, 1, 31)));
    assert_eq!(Fecha::new(2000, 2, 29), add_one_month(Fecha::new(2000, 1, 29)));
}

#[test]
fn particion_por_fecha_reconstruye_la_tabla() {
    let tabla = calcula_tabla_amortizacion(1000000, 4000, 5, Fecha::new(2004, 4, 17)).unwrap();
    let cortes = [
        Fecha::new(2004, 6, 17),
        Fecha::new(2004, 6, 20),
        Fecha::new(2001, 1, 1),
        Fecha::new(2030, 1, 1),
    ];
    for corte in cortes {
        let antes = tabla.tabla_hasta_fecha_excluida(corte);
        let despues = tabla.tabla_desde_fecha_incluida(corte);
        let mut reconstruida = TablaAmortizacion::new();
        reconstruida.push_tabla(&antes);
        reconstruida.push_tabla(&despues);
        assert_eq!(tabla.len(), reconstruida.len());
        for i in 0..tabla.len() {
            assert_eq!(tabla.cuotas[i], reconstruida.cuotas[i]);
        }
    }
}

#[test]
fn ventana_de_impago_con_liquidacion_final() {
    let h = hipoteca_con_impago();
    let impago = Fecha::new(2018, 5, 17);
    let resolucion = Fecha::new(2022, 8, 5);
    let tabla = h.calcula_tabla_impago().unwrap();
    let mut en_ventana: usize = 0;
    for cuota in h.tabla_amort_con_actualizacion_euribor.cuotas.iter() {
        let desde = !(cuota.fecha.agno < impago.agno
            || (cuota.fecha.agno == impago.agno
                && (cuota.fecha.mes < impago.mes
                    || (cuota.fecha.mes == impago.mes && cuota.fecha.dia < impago.dia))));
        let hasta = cuota.fecha.agno < resolucion.agno
            || (cuota.fecha.agno == resolucion.agno
                && (cuota.fecha.mes < resolucion.mes
                    || (cuota.fecha.mes == resolucion.mes && cuota.fecha.dia <= resolucion.dia)));
        if desde && hasta {
            en_ventana += 1;
        }
    }
    // la resolución cae entre dos vencimientos: una única cuota sintética
    assert_eq!(en_ventana + 1, tabla.len());
    let ultima = tabla.cuotas.last().unwrap();
    assert_eq!(resolucion, ultima.fecha);
    assert_eq!(3164883, ultima.cuota_capital);
    assert_eq!(6590, ultima.cuota_interes);
    assert_eq!(3171473, ultima.cuota_total);
    assert_eq!(ultima.cuota_total, ultima.cuota_capital + ultima.cuota_interes);
}

#[test]
fn recorte_hacia_delante_del_euribor() {
    let ed = EuriborData::new();
    assert_eq!(ed.euribor_mes(12, 2021), ed.euribor_mes(4, 2022));
    assert_eq!(ed.euribor_mes(12, 2021), ed.euribor_mes(1, 2100));
}

#[test]
fn errores_de_mes_invalido() {
    assert_eq!(Err(ErrorHipoteca::InvalidMonth), mes_anterior(2020, 0));
    assert_eq!(Err(ErrorHipoteca::InvalidMonth), mes_anterior(2020, 13));
}

#[test]
fn errores_de_parametros_invalidos() {
    let fecha = Fecha::new(2022, 5, 12);
    assert_eq!(
        Err(ErrorHipoteca::InvalidLoanParameters),
        calcula_tabla_amortizacion(0, 4000, 12, fecha).map(|t| t.len())
    );
    assert_eq!(
        Err(ErrorHipoteca::InvalidLoanParameters),
        calcula_tabla_amortizacion(1000000, 0, 12, fecha).map(|t| t.len())
    );
    assert_eq!(
        Err(ErrorHipoteca::InvalidLoanParameters),
        calcula_tabla_amortizacion(1000000, 4000, 0, fecha).map(|t| t.len())
    );
    assert_eq!(Err(ErrorHipoteca::InvalidLoanParameters), importe_cuota_mensual(1000000, 4000, 0));
    let h = Hipoteca::new(
        String::from("Mal"),
        Fecha::new(2004, 3, 17),
        Fecha::new(2004, 4, 17),
        1000000,
        4000,
        5,
        1,
        0,
        0,
        0,
        12000,
        None,
        None,
    );
    assert!(h.is_err());
}

#[test]
fn error_de_ventana_vacia() {
    // la vida del préstamo termina en 2004; la ventana 2018-2022 no coge nada
    let h = Hipoteca::new(
        String::from("Prueba"),
        Fecha::new(2004, 3, 17),
        Fecha::new(2004, 4, 17),
        1000000,
        4000,
        5,
        1,
        2,
        0,
        0,
        12000,
        Some(Fecha::new(2018, 5, 17)),
        Some(Fecha::new(2022, 8, 5)),
    )
    .unwrap();
    assert_eq!(
        Err(ErrorHipoteca::EmptyDefaultWindow),
        h.calcula_tabla_impago().map(|t| t.len())
    );
}

#[test]
fn redondeo_de_mitades_lejos_de_cero() {
    assert_eq!(1, divide_redondeando(5, 10));
    assert_eq!(-1, divide_redondeando(-5, 10));
    assert_eq!(0, divide_redondeando(4, 10));
    assert_eq!(0, divide_redondeando(-4, 10));
}

#[test]
fn filtros_sobre_tabla_vacia() {
    let tabla = TablaAmortizacion::new();
    let corte = Fecha::new(2020, 1, 1);
    assert_eq!(0, tabla.tabla_hasta_fecha_incluida(corte).len());
    assert_eq!(0, tabla.tabla_hasta_fecha_excluida(corte).len());
    assert_eq!(0, tabla.tabla_desde_fecha_incluida(corte).len());
    assert_eq!(0, tabla.tabla_desde_fecha_excluida(corte).len());
}

#[test]
fn cuadro_de_un_solo_mes() {
    let tabla = calcula_tabla_amortizacion(1000000, 4000, 1, Fecha::new(2020, 6, 15)).unwrap();
    assert_eq!(1, tabla.len());
    let unica = &tabla.cuotas[0];
    // un solo pago: todo el capital más el interés del mes, y saldo cero
    assert_eq!(1000000, unica.cuota_capital);
    assert_eq!(3333, unica.cuota_interes);
    assert_eq!(1003333, unica.cuota_total);
    assert_eq!(0, unica.cap_pendiente_despues());
}

#[test]
fn suma_de_meses_no_positiva_deja_la_fecha() {
    let f = Fecha::new(2020, 6, 15);
    assert_eq!(f, add_n_months(f, 0));
    assert_eq!(f, add_n_months(f, -3));
}

#[test]
fn actualizacion_en_los_bordes_de_suelo_y_techo() {
    let ed = EuriborData::new();
    // índice + diferencial exactamente en el suelo
    assert_eq!(892, ed.actualiza_euribor(Fecha::new(2020, 5, 1), 1000, 892, 12000));
    // índice + diferencial exactamente en el techo
    assert_eq!(892, ed.actualiza_euribor(Fecha::new(2020, 5, 1), 1000, -10000, 892));
}

#[test]
fn primera_cuota_del_cuadro_contractual() {
    let tabla = calcula_tabla_amortizacion(8414000, 4000, 300, Fecha::new(2004, 4, 17)).unwrap();
    assert_eq!(44412, importe_cuota_mensual(8414000, 4000, 300).unwrap());
    let primera = &tabla.cuotas[0];
    assert_eq!(28047, primera.cuota_interes);
    assert_eq!(16365, primera.cuota_capital);
    assert_eq!(8397635, primera.cap_pendiente_despues());
}
