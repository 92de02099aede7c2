use hipotecas::{EuriborData, Fecha};

#[test]
fn euribor_data_test_new() {
    let _ed = EuriborData::new();
}

#[test]
fn test_last_year() {
    let ed = EuriborData::new();
    assert_eq!(2021, ed.last_year());
}

#[test]
fn test_euribor_mes() {
    let ed = EuriborData::new();
    assert_eq!(-484, ed.euribor_mes(6, 2021));
    assert_eq!(-108, ed.euribor_mes(4, 2020));
    assert_eq!(-502, ed.euribor_mes(4, 2022));
}

#[test]
fn test_euribor_fecha() {
    let ed = EuriborData::new();
    assert_eq!(ed.euribor_mes(12, 2021), ed.euribor_fecha(Fecha::new(2022, 1, 25)));
    assert_eq!(ed.euribor_mes(5, 2021), ed.euribor_fecha(Fecha::new(2021, 6, 17)));
    assert_eq!(-108, ed.euribor_fecha(Fecha::new(2020, 5, 1)));
    assert_eq!(1924, ed.euribor_fecha(Fecha::new(2011, 4, 1)));
    assert_eq!(-502, ed.euribor_fecha(Fecha::new(2022, 5, 30)));
    assert_eq!(2301, ed.euribor_fecha(Fecha::new(2005, 1, 31)));
}

#[test]
fn euribor_data_test_actualiza_euribor() {
    let ed = EuriborData::new();
    assert_eq!(892, ed.actualiza_euribor(Fecha::new(2020, 5, 1), 1000, -10000, 12000));
    assert_eq!(3000, ed.actualiza_euribor(Fecha::new(2020, 5, 1), 1000, 3000, 12000));
    assert_eq!(7893, ed.actualiza_euribor(Fecha::new(2008, 8, 1), 2500, 4000, 12000));
    assert_eq!(12000, ed.actualiza_euribor(Fecha::new(2008, 8, 1), 10000, 4000, 12000));
}
