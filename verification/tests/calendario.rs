use hipotecas::{add_n_months, add_one_month, divide_redondeando, is_leap_year, last_day_of_month, mes_anterior, Fecha};

#[test]
fn test_mes_anterior() {
    assert_eq!((2020, 2), mes_anterior(2020, 3).unwrap());
    assert_eq!((2020, 12), mes_anterior(2021, 1).unwrap());
}

#[test]
fn test_mes_anterior_panic() {
    assert!(mes_anterior(2020, 13).is_err());
}

#[test]
fn test_is_leap_year() {
    assert!(is_leap_year(2020));
    assert!(is_leap_year(2000));
    assert!(!is_leap_year(2100));
}

#[test]
fn test_last_day_of_month() {
    assert_eq!(31, last_day_of_month(2020, 8).unwrap());
    assert_eq!(29, last_day_of_month(2000, 2).unwrap());
    assert_eq!(28, last_day_of_month(2100, 2).unwrap());
}

#[test]
fn test_last_day_of_month_panic() {
    assert!(last_day_of_month(2020, 25).is_err());
}

#[test]
fn test_add_one_month() {
    let dt = Fecha::new(2022, 1, 1);
    let dt2 = add_one_month(dt);
    assert_eq!(2022, dt2.agno);
    assert_eq!(2, dt2.mes);
    assert_eq!(1, dt2.dia);

    let dt = Fecha::new(2022, 2, 15);
    let dt2 = add_one_month(dt);
    assert_eq!(2022, dt2.agno);
    assert_eq!(3, dt2.mes);
    assert_eq!(15, dt2.dia);

    let dt = Fecha::new(2022, 12, 10);
    let dt2 = add_one_month(dt);
    assert_eq!(2023, dt2.agno);
    assert_eq!(1, dt2.mes);
    assert_eq!(10, dt2.dia);

    let dt = Fecha::new(2022, 1, 29);
    let dt2 = add_one_month(dt);
    assert_eq!(2022, dt2.agno);
    assert_eq!(2, dt2.mes);
    assert_eq!(28, dt2.dia);

    let dt = Fecha::new(2022, 1, 30);
    let dt2 = add_one_month(dt);
    assert_eq!(2022, dt2.agno);
    assert_eq!(2, dt2.mes);
    assert_eq!(28, dt2.dia);

    let dt = Fecha::new(2022, 1, 31);
    let dt2 = add_one_month(dt);
    assert_eq!(2022, dt2.agno);
    assert_eq!(2, dt2.mes);
    assert_eq!(28, dt2.dia);

    let dt = Fecha::new(2000, 1, 29);
    let dt2 = add_one_month(dt);
    assert_eq!(2000, dt2.agno);
    assert_eq!(2, dt2.mes);
    assert_eq!(29, dt2.dia);

    let dt = Fecha::new(2022, 3, 31);
    let dt2 = add_one_month(dt);
    assert_eq!(2022, dt2.agno);
    assert_eq!(4, dt2.mes);
    assert_eq!(30, dt2.dia);
}

#[test]
fn test_add_n_months() {
    let fecha = Fecha::new(2004, 3, 17);
    let meses = 300;
    assert_eq!(Fecha::new(2029, 3, 17), add_n_months(fecha, meses));
}

#[test]
fn test_redondea_dos_decimales() {
    // 1324.7856 en diezmilésimas, redondeado a céntimos
    let x: i128 = 13247856;
    assert_eq!(132479, divide_redondeando(x, 100));
    let x: i128 = 13247816;
    assert_eq!(132478, divide_redondeando(x, 100));
    let x: i128 = 13247850;
    assert_eq!(132479, divide_redondeando(x, 100));
}
