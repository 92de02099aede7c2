use vstd::prelude::*;

use crate::calendario::Fecha;

verus! {

/// Una cuota: cada uno de los pagos mensuales de la hipoteca. Los importes
/// están en céntimos y el tipo de interés en cienmilésimas. Los datos se
/// fijan al calcular el cuadro de amortización y la cuota no se vuelve a
/// tocar, salvo el ajuste de redondeo de la última cuota del cuadro.
#[derive(Clone, Copy, Debug, PartialEq, Eq, Structural)]
pub struct Cuota {
    /// Fecha en la que se debe abonar la cuota.
    pub fecha: Fecha,
    /// Tipo de interés nominal anual vigente, en cienmilésimas.
    pub i: i64,
    /// Meses restantes del préstamo, incluyendo éste.
    pub meses_restantes_antes: i32,
    /// Capital pendiente de amortizar antes de pagar esta cuota.
    pub cap_pendiente_antes: i64,
    /// Importe total de la cuota.
    pub cuota_total: i64,
    /// Parte de capital de la cuota.
    pub cuota_capital: i64,
    /// Parte de intereses de la cuota.
    pub cuota_interes: i64,
}

/// La imagen matemática de una cuota: los mismos campos, con los importes
/// como enteros sin acotar. Los contratos del cuadro de amortización se
/// enuncian sobre sucesiones de `Fila`.
pub struct Fila {
    pub fecha: Fecha,
    pub i: int,
    pub meses_restantes_antes: int,
    pub cap_pendiente_antes: int,
    pub cuota_total: int,
    pub cuota_capital: int,
    pub cuota_interes: int,
}

impl View for Cuota {
    type V = Fila;

    open spec fn view(&self) -> Fila {
        Fila {
            fecha: self.fecha,
            i: self.i as int,
            meses_restantes_antes: self.meses_restantes_antes as int,
            cap_pendiente_antes: self.cap_pendiente_antes as int,
            cuota_total: self.cuota_total as int,
            cuota_capital: self.cuota_capital as int,
            cuota_interes: self.cuota_interes as int,
        }
    }
}

impl Fila {
    /// Capital pendiente tras pagar la cuota: el pendiente previo menos la
    /// parte de capital. En céntimos la resta ya es exacta.
    pub open spec fn cap_pendiente_despues(self) -> int {
        self.cap_pendiente_antes - self.cuota_capital
    }
}

impl Cuota {
    /// Construye una cuota con los valores dados.
    pub fn new(
        fecha: Fecha,
        i: i64,
        meses_restantes_antes: i32,
        cap_pendiente_antes: i64,
        cuota_total: i64,
        cuota_capital: i64,
        cuota_interes: i64,
    ) -> (r: Cuota)
        ensures
            r == (Cuota {
                fecha,
                i,
                meses_restantes_antes,
                cap_pendiente_antes,
                cuota_total,
                cuota_capital,
                cuota_interes,
            }),
    {
        Cuota {
            fecha,
            i,
            meses_restantes_antes,
            cap_pendiente_antes,
            cuota_total,
            cuota_capital,
            cuota_interes,
        }
    }

    /// Capital pendiente de amortizar después de pagar esta cuota.
    pub fn cap_pendiente_despues(&self) -> (r: i64)
        requires
            i64::MIN <= self@.cap_pendiente_antes - self@.cuota_capital <= i64::MAX,
        ensures
            r as int == self@.cap_pendiente_despues(),
    {
        self.cap_pendiente_antes - self.cuota_capital
    }
}

} // verus!
