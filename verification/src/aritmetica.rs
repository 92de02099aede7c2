use vstd::prelude::*;

verus! {

/// Importe máximo (en céntimos) que la biblioteca acepta en sus cálculos:
/// 10^18 céntimos. Mantenerse por debajo garantiza que las sumas y
/// diferencias intermedias caben en `i64` y los productos en `i128`.
pub const MAX_IMPORTE_CENTIMOS: i64 = 1_000_000_000_000_000_000;

/// Tipo de interés anual máximo admitido, en cienmilésimas: 12.0 (1200%).
/// Con este tope el interés mensual nunca supera el saldo sobre el que se
/// calcula, lo que acota todos los importes intermedios del cuadro.
pub const MAX_TIPO_E5: i64 = 1_200_000;

/// Denominador con el que un saldo en céntimos por un tipo anual en
/// cienmilésimas se convierte en el interés mensual en céntimos:
/// 12 meses por 10^5.
pub const DENOMINADOR_MENSUAL: i64 = 1_200_000;

/// Denominador del interés simple diario (convención actual/365): 365 días
/// por 10^5 cienmilésimas.
pub const DENOMINADOR_DIARIO: i64 = 36_500_000;

/// Año máximo que el calendario de la biblioteca maneja.
pub const MAX_AGNO: i32 = 4_000_000;

/// Escala de punto fijo del factor de descuento de la fórmula de la
/// anualidad: 10^12.
pub const ESCALA_FACTOR: i64 = 1_000_000_000_000;

/// Cociente `numerador / divisor` redondeado al entero más próximo, con las
/// mitades alejándose de cero. Es la regla canónica con la que la
/// biblioteca redondea importes a céntimos y tipos a cienmilésimas.
pub open spec fn redondeo_division(numerador: int, divisor: int) -> int {
    if numerador >= 0 {
        (numerador + divisor / 2) / divisor
    } else {
        -((-numerador + divisor / 2) / divisor)
    }
}

/// El redondeo de `numerador / divisor` no saca el cociente del intervalo
/// `[-cota, cota]` cuando `|numerador| <= cota * divisor`.
pub proof fn lemma_redondeo_acotado(numerador: int, divisor: int, cota: int)
    requires
        divisor > 0,
        cota >= 0,
        -(cota * divisor) <= numerador <= cota * divisor,
    ensures
        -cota <= redondeo_division(numerador, divisor) <= cota,
{
    assert((cota * divisor + divisor / 2) / divisor == cota + (divisor / 2) / divisor) by (nonlinear_arith)
        requires divisor > 0, cota >= 0;
    assert((divisor / 2) / divisor == 0) by (nonlinear_arith)
        requires divisor > 0;
    if numerador >= 0 {
        assert((numerador + divisor / 2) / divisor <= (cota * divisor + divisor / 2) / divisor) by (nonlinear_arith)
            requires divisor > 0, numerador + divisor / 2 <= cota * divisor + divisor / 2;
        assert((numerador + divisor / 2) / divisor >= 0) by (nonlinear_arith)
            requires divisor > 0, numerador + divisor / 2 >= 0;
    } else {
        assert((-numerador + divisor / 2) / divisor <= (cota * divisor + divisor / 2) / divisor) by (nonlinear_arith)
            requires divisor > 0, -numerador + divisor / 2 <= cota * divisor + divisor / 2;
        assert((-numerador + divisor / 2) / divisor >= 0) by (nonlinear_arith)
            requires divisor > 0, -numerador + divisor / 2 >= 0;
    }
}

/// División entera con redondeo al más próximo (mitades lejos de cero),
/// ejecutable. Los límites de los argumentos evitan el desbordamiento de
/// la aritmética interna de 128 bits.
pub fn divide_redondeando(numerador: i128, divisor: i128) -> (r: i128)
    requires
        divisor > 0,
        -i128::MAX <= numerador,
    ensures
        r == redondeo_division(numerador as int, divisor as int),
        numerador >= 0 ==> 0 <= r <= numerador,
        numerador < 0 ==> numerador <= r <= 0,
{
    let negativo = numerador < 0;
    let nn: u128 = if negativo {
        (-numerador) as u128
    } else {
        numerador as u128
    };
    let dd: u128 = divisor as u128;
    proof {
        assert(nn + dd / 2 <= u128::MAX) by {
            assert(nn <= i128::MAX as u128);
            assert(dd <= i128::MAX as u128);
        };
    }
    let q: u128 = (nn + dd / 2) / dd;
    proof {
        assert(q <= nn) by (nonlinear_arith)
            requires
                dd > 0,
                q as int == (nn as int + (dd as int) / 2) / (dd as int),
        ;
    }
    if negativo {
        -(q as i128)
    } else {
        q as i128
    }
}

} // verus!
