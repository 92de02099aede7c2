use vstd::prelude::*;

use crate::calendario::Fecha;

verus! {

/// Una novación: un acto que modifica el capital pendiente del préstamo
/// en una fecha de su vida, en más o en menos (céntimos).
#[derive(Clone, Copy, Debug, PartialEq, Eq, Structural)]
pub struct Novacion {
    /// Fecha en la que surte efecto la novación.
    pub fecha_novacion: Fecha,
    /// Incremento (o decremento) del capital pendiente, en céntimos.
    pub incremento_capital: i64,
}

impl Novacion {
    /// Construye una novación con los valores dados.
    pub fn new(fecha_novacion: Fecha, incremento_capital: i64) -> (r: Novacion)
        ensures
            r == (Novacion { fecha_novacion, incremento_capital }),
    {
        Novacion { fecha_novacion, incremento_capital }
    }
}

} // verus!
