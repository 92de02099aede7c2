//! Cálculo de cuadros de amortización de préstamos hipotecarios a tipo
//! variable por el método francés: aritmética de calendario con ajuste al
//! fin de mes, tabla histórica del euríbor con su regla de revisión
//! (índice + diferencial acotado por suelo y techo), generación del cuadro
//! de cuotas, empalme de revisiones y extracción del periodo de impago.
//!
//! Los importes monetarios se representan en céntimos (enteros) y los
//! tipos de interés en cienmilésimas (cinco decimales exactos), de modo que
//! toda la aritmética de redondeo a dos y a cinco decimales es exacta.

pub mod aritmetica;
pub mod calculo;
pub mod calendario;
pub mod cuota;
pub mod errores;
pub mod euribor_data;
pub mod hipoteca;
pub mod novacion;
pub mod tabla_amort;

pub use aritmetica::divide_redondeando;
pub use aritmetica::MAX_IMPORTE_CENTIMOS;
pub use calculo::calcula_tabla_amortizacion;
pub use calculo::importe_cuota_mensual;
pub use calculo::intereses_mes;
pub use calendario::add_n_months;
pub use calendario::add_one_month;
pub use calendario::is_leap_year;
pub use calendario::last_day_of_month;
pub use calendario::mes_anterior;
pub use calendario::Fecha;
pub use cuota::Cuota;
pub use errores::ErrorHipoteca;
pub use hipoteca::Hipoteca;
pub use euribor_data::EuriborData;
pub use novacion::Novacion;
pub use tabla_amort::TablaAmortizacion;
