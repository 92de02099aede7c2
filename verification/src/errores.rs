use vstd::prelude::*;

verus! {

/// Condiciones de error de la biblioteca.
///
/// `InvalidMonth`: un número de mes fuera de 1..=12 en las funciones de
/// calendario. `InvalidLoanParameters`: capital o plazo no positivos, un
/// tipo de interés con el que la fórmula de la anualidad no es finita, o
/// parámetros cuyo cuadro se saldría del rango monetario representable.
/// `EmptyDefaultWindow`: ninguna cuota cae en la ventana de impago pedida.
#[derive(Clone, Copy, Debug, PartialEq, Eq, Structural)]
pub enum ErrorHipoteca {
    InvalidMonth,
    InvalidLoanParameters,
    EmptyDefaultWindow,
}

} // verus!
