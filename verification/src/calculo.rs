use vstd::prelude::*;

use crate::aritmetica::{
    divide_redondeando, lemma_redondeo_acotado, redondeo_division, DENOMINADOR_MENSUAL,
    ESCALA_FACTOR, MAX_AGNO, MAX_IMPORTE_CENTIMOS, MAX_TIPO_E5,
};
use crate::calendario::{
    add_one_month, fecha_lt, lemma_orden_num, lemma_suma_n_meses, lemma_suma_n_meses_compuesta,
    spec_suma_n_meses, spec_suma_un_mes, Fecha,
};
use crate::cuota::{Cuota, Fila};
use crate::errores::ErrorHipoteca;
use crate::tabla_amort::TablaAmortizacion;

verus! {

/// Intereses de un mes: el capital pendiente por el tipo anual, dividido
/// entre doce, redondeado a céntimos.
pub open spec fn interes_mensual_spec(cap_pendiente: int, tipo_anual: int) -> int {
    redondeo_division(cap_pendiente * tipo_anual, DENOMINADOR_MENSUAL as int)
}

/// Factor de descuento `(1 + i)^(-k)` en punto fijo a escala
/// `ESCALA_FACTOR`, con `i = tipo / DENOMINADOR_MENSUAL` el interés
/// mensual, calculado dividiendo `k` veces con redondeo al más próximo.
pub open spec fn factor_descuento(tipo: int, k: int) -> int
    decreases k,
{
    if k <= 0 {
        ESCALA_FACTOR as int
    } else {
        let divisor = DENOMINADOR_MENSUAL + tipo;
        (factor_descuento(tipo, k - 1) * DENOMINADOR_MENSUAL + divisor / 2) / divisor
    }
}

/// Importe mensual de la anualidad francesa, redondeado a céntimos:
/// `cap * i / (1 - (1 + i)^(-meses))`, evaluado en punto fijo.
pub open spec fn cuota_mensual_spec(cap: int, tipo: int, meses: int) -> int {
    let factor = factor_descuento(tipo, meses);
    let divisor = (DENOMINADOR_MENSUAL as int) * (ESCALA_FACTOR - factor);
    (cap * tipo * (ESCALA_FACTOR as int) + divisor / 2) / divisor
}

/// La fila del cuadro correspondiente a un mes: intereses sobre el saldo,
/// parte de capital por diferencia con la cuota constante.
pub open spec fn fila_mensual(fecha: Fecha, tipo: int, meses: int, cap: int, importe: int) -> Fila {
    let interes = interes_mensual_spec(cap, tipo);
    Fila {
        fecha,
        i: tipo,
        meses_restantes_antes: meses,
        cap_pendiente_antes: cap,
        cuota_total: importe,
        cuota_capital: importe - interes,
        cuota_interes: interes,
    }
}

/// Las `meses` filas del cuadro antes del ajuste de redondeo final, con
/// el saldo arrastrado de una a la siguiente.
pub open spec fn filas_cuadro(cap: int, tipo: int, importe: int, meses: int, fecha: Fecha) -> Seq<
    Fila,
>
    decreases meses,
{
    if meses <= 0 {
        Seq::<Fila>::empty()
    } else {
        let interes = interes_mensual_spec(cap, tipo);
        let capital = importe - interes;
        seq![fila_mensual(fecha, tipo, meses, cap, importe)] + filas_cuadro(
            cap - capital,
            tipo,
            importe,
            meses - 1,
            spec_suma_un_mes(fecha),
        )
    }
}

/// El saldo que queda tras pagar las `meses` cuotas, antes del ajuste de
/// redondeo final.
pub open spec fn saldo_final(cap: int, tipo: int, importe: int, meses: int) -> int
    decreases meses,
{
    if meses <= 0 {
        cap
    } else {
        saldo_final(cap - (importe - interes_mensual_spec(cap, tipo)), tipo, importe, meses - 1)
    }
}

/// Todos los saldos intermedios del cuadro caben en el rango monetario
/// de la biblioteca.
pub open spec fn saldos_en_rango(cap: int, tipo: int, importe: int, meses: int) -> bool
    decreases meses,
{
    if meses <= 0 {
        true
    } else {
        let nuevo = cap - (importe - interes_mensual_spec(cap, tipo));
        -(MAX_IMPORTE_CENTIMOS as int) <= nuevo <= MAX_IMPORTE_CENTIMOS as int && saldos_en_rango(
            nuevo,
            tipo,
            importe,
            meses - 1,
        )
    }
}

/// Ajuste de redondeo de la última cuota: si el saldo final no es cero, el
/// descuadre se suma al total y a la parte de capital de la última cuota,
/// de modo que el cuadro termine exactamente en cero.
pub open spec fn ajusta_ultima(filas: Seq<Fila>, resto: int) -> Seq<Fila> {
    if filas.len() == 0 || resto == 0 {
        filas
    } else {
        let u = filas[filas.len() - 1];
        filas.update(
            filas.len() - 1,
            Fila { cuota_total: u.cuota_total + resto, cuota_capital: u.cuota_capital + resto, ..u },
        )
    }
}

/// El cuadro de amortización completo del método francés: cuota constante,
/// intereses sobre saldo, y ajuste de redondeo en la última cuota.
pub open spec fn cuadro_modelo(cap: int, tipo: int, meses: int, primera: Fecha) -> Seq<Fila> {
    let importe = cuota_mensual_spec(cap, tipo, meses);
    ajusta_ultima(
        filas_cuadro(cap, tipo, importe, meses, primera),
        saldo_final(cap, tipo, importe, meses),
    )
}

/// Los parámetros con los que el generador del cuadro tiene éxito:
/// capital y plazo positivos, tipo positivo (la anualidad no es finita
/// con tipo cero o negativo), fecha válida, y todos los importes del
/// cuadro dentro del rango monetario representable.
pub open spec fn parametros_validos(cap: int, tipo: int, meses: int, primera: Fecha) -> bool {
    &&& 0 < cap <= MAX_IMPORTE_CENTIMOS as int
    &&& 0 < tipo <= MAX_TIPO_E5 as int
    &&& 0 < meses
    &&& primera.valida()
    &&& primera.agno + meses <= MAX_AGNO as int
    &&& cuota_mensual_spec(cap, tipo, meses) <= MAX_IMPORTE_CENTIMOS as int
    &&& saldos_en_rango(cap, tipo, cuota_mensual_spec(cap, tipo, meses), meses)
}

/// Intereses a pagar en un mes a partir del capital pendiente (céntimos)
/// y el tipo de interés anual (cienmilésimas).
pub fn intereses_mes(cap_pendiente: i64, tipo_interes_anual: i64) -> (r: i64)
    requires
        -MAX_IMPORTE_CENTIMOS <= cap_pendiente <= MAX_IMPORTE_CENTIMOS,
        -MAX_TIPO_E5 <= tipo_interes_anual <= MAX_TIPO_E5,
    ensures
        r as int == interes_mensual_spec(cap_pendiente as int, tipo_interes_anual as int),
        -MAX_IMPORTE_CENTIMOS <= r <= MAX_IMPORTE_CENTIMOS,
{
    let cota: i128 = if cap_pendiente >= 0 {
        cap_pendiente as i128
    } else {
        -(cap_pendiente as i128)
    };
    proof {
        assert(-((cota as int) * (DENOMINADOR_MENSUAL as int)) <= (cap_pendiente as int) * (
        tipo_interes_anual as int) <= (cota as int) * (DENOMINADOR_MENSUAL as int))
            by (nonlinear_arith)
            requires
                cota as int == (if cap_pendiente >= 0 {
                    cap_pendiente as int
                } else {
                    -(cap_pendiente as int)
                }),
                -(DENOMINADOR_MENSUAL as int) <= (tipo_interes_anual as int) <= (
                DENOMINADOR_MENSUAL as int),
        ;
    }
    let producto: i128 = (cap_pendiente as i128) * (tipo_interes_anual as i128);
    proof {
        lemma_redondeo_acotado(producto as int, DENOMINADOR_MENSUAL as int, cota as int);
    }
    let r = divide_redondeando(producto, DENOMINADOR_MENSUAL as i128);
    r as i64
}

/// Importe mensual constante de un préstamo por el método francés, o
/// `InvalidLoanParameters` cuando el capital, el tipo o el plazo no son
/// positivos, exceden los topes de la biblioteca, o el importe resultante
/// excede el rango monetario.
pub fn importe_cuota_mensual(capital_pendiente: i64, tipo_interes_anual: i64, meses: i32) -> (r:
    Result<i64, ErrorHipoteca>)
    ensures
        r is Ok <==> {
            &&& 0 < capital_pendiente <= MAX_IMPORTE_CENTIMOS
            &&& 0 < tipo_interes_anual <= MAX_TIPO_E5
            &&& 0 < meses
            &&& cuota_mensual_spec(capital_pendiente as int, tipo_interes_anual as int, meses as int)
                <= MAX_IMPORTE_CENTIMOS as int
        },
        r is Ok ==> r->Ok_0 as int == cuota_mensual_spec(
            capital_pendiente as int,
            tipo_interes_anual as int,
            meses as int,
        ) && r->Ok_0 >= 0,
{
    if capital_pendiente <= 0 || capital_pendiente > MAX_IMPORTE_CENTIMOS {
        return Err(ErrorHipoteca::InvalidLoanParameters);
    }
    if tipo_interes_anual <= 0 || tipo_interes_anual > MAX_TIPO_E5 {
        return Err(ErrorHipoteca::InvalidLoanParameters);
    }
    if meses <= 0 {
        return Err(ErrorHipoteca::InvalidLoanParameters);
    }
    let divisor_base: u64 = (DENOMINADOR_MENSUAL + tipo_interes_anual) as u64;
    let mut factor: u64 = ESCALA_FACTOR as u64;
    let mut k: i32 = 0;
    while k < meses
        invariant
            0 <= k <= meses,
            0 < tipo_interes_anual <= MAX_TIPO_E5,
            divisor_base == DENOMINADOR_MENSUAL + tipo_interes_anual,
            factor as int == factor_descuento(tipo_interes_anual as int, k as int),
            0 <= factor <= ESCALA_FACTOR as u64,
            k >= 1 ==> factor < ESCALA_FACTOR as u64,
        decreases meses - k,
    {
        let anterior = factor;
        proof {
            assert((anterior as int) * (DENOMINADOR_MENSUAL as int) <= (ESCALA_FACTOR as int) * (
            DENOMINADOR_MENSUAL as int)) by (nonlinear_arith)
                requires
                    0 <= anterior as int <= ESCALA_FACTOR as int,
            ;
        }
        factor = (anterior * (DENOMINADOR_MENSUAL as u64) + divisor_base / 2) / divisor_base;
        proof {
            let fi = anterior as int;
            let di = divisor_base as int;
            let nuevo = (fi * (DENOMINADOR_MENSUAL as int) + di / 2) / di;
            assert(nuevo <= fi) by (nonlinear_arith)
                requires
                    di > DENOMINADOR_MENSUAL as int,
                    fi >= 0,
                    nuevo == (fi * (DENOMINADOR_MENSUAL as int) + di / 2) / di,
            ;
            assert(nuevo >= 0) by (nonlinear_arith)
                requires
                    di > 0,
                    fi >= 0,
                    nuevo == (fi * (DENOMINADOR_MENSUAL as int) + di / 2) / di,
            ;
            if k == 0 {
                assert(nuevo < ESCALA_FACTOR as int) by (nonlinear_arith)
                    requires
                        fi == ESCALA_FACTOR as int,
                        (DENOMINADOR_MENSUAL as int) < di <= (DENOMINADOR_MENSUAL as int)
                            + (MAX_TIPO_E5 as int),
                        nuevo == (fi * (DENOMINADOR_MENSUAL as int) + di / 2) / di,
                ;
            }
        }
        k = k + 1;
    }
    let resto_escala: u64 = (ESCALA_FACTOR as u64) - factor;
    proof {
        assert((capital_pendiente as int) * (tipo_interes_anual as int) <= (MAX_IMPORTE_CENTIMOS
            as int) * (MAX_TIPO_E5 as int)) by (nonlinear_arith)
            requires
                0 <= (capital_pendiente as int) <= MAX_IMPORTE_CENTIMOS as int,
                0 <= (tipo_interes_anual as int) <= MAX_TIPO_E5 as int,
        ;
        assert((capital_pendiente as int) * (tipo_interes_anual as int) >= 0) by (nonlinear_arith)
            requires
                0 <= (capital_pendiente as int),
                0 <= (tipo_interes_anual as int),
        ;
        assert((capital_pendiente as int) * (tipo_interes_anual as int) * (ESCALA_FACTOR as int)
            <= (MAX_IMPORTE_CENTIMOS as int) * (MAX_TIPO_E5 as int) * (ESCALA_FACTOR as int))
            by (nonlinear_arith)
            requires
                0 <= (capital_pendiente as int) * (tipo_interes_anual as int) <= (
                MAX_IMPORTE_CENTIMOS as int) * (MAX_TIPO_E5 as int),
        ;
        assert((DENOMINADOR_MENSUAL as int) * (resto_escala as int) <= (DENOMINADOR_MENSUAL as int)
            * (ESCALA_FACTOR as int)) by (nonlinear_arith)
            requires
                0 <= (resto_escala as int) <= ESCALA_FACTOR as int,
        ;
    }
    let divisor: u128 = (DENOMINADOR_MENSUAL as u128) * (resto_escala as u128);
    let numerador: u128 = (capital_pendiente as u128) * (tipo_interes_anual as u128) * (
    ESCALA_FACTOR as u128);
    let importe: u128 = (numerador + divisor / 2) / divisor;
    proof {
        assert(importe as int == cuota_mensual_spec(
            capital_pendiente as int,
            tipo_interes_anual as int,
            meses as int,
        )) by {
            assert(numerador as int == (capital_pendiente as int) * (tipo_interes_anual as int) * (
            ESCALA_FACTOR as int));
            assert(divisor as int == (DENOMINADOR_MENSUAL as int) * (ESCALA_FACTOR
                - factor_descuento(tipo_interes_anual as int, meses as int)));
        }
    }
    if importe > MAX_IMPORTE_CENTIMOS as u128 {
        return Err(ErrorHipoteca::InvalidLoanParameters);
    }
    Ok(importe as i64)
}

/// El interés mensual de un saldo acotado queda acotado por el propio
/// saldo mientras el tipo no exceda `MAX_TIPO_E5`.
pub proof fn lemma_interes_acotado(cap: int, tipo: int)
    requires
        -(MAX_IMPORTE_CENTIMOS as int) <= cap <= MAX_IMPORTE_CENTIMOS as int,
        -(MAX_TIPO_E5 as int) <= tipo <= MAX_TIPO_E5 as int,
    ensures
        -(MAX_IMPORTE_CENTIMOS as int) <= interes_mensual_spec(cap, tipo) <= MAX_IMPORTE_CENTIMOS
            as int,
{
    let cota = if cap >= 0 {
        cap
    } else {
        -cap
    };
    assert(-(cota * (DENOMINADOR_MENSUAL as int)) <= cap * tipo <= cota * (DENOMINADOR_MENSUAL
        as int)) by (nonlinear_arith)
        requires
            cota == (if cap >= 0 {
                cap
            } else {
                -cap
            }),
            -(DENOMINADOR_MENSUAL as int) <= tipo <= DENOMINADOR_MENSUAL as int,
    ;
    lemma_redondeo_acotado(cap * tipo, DENOMINADOR_MENSUAL as int, cota);
}

/// Propiedades de las filas del cuadro sin ajustar: hay exactamente
/// `meses`, todas llevan la cuota constante, sus importes quedan acotados
/// y el saldo tras la última coincide con `saldo_final`.
pub proof fn lemma_filas_cuadro(cap: int, tipo: int, importe: int, meses: int, fecha: Fecha)
    requires
        meses >= 0,
        -(MAX_IMPORTE_CENTIMOS as int) <= cap <= MAX_IMPORTE_CENTIMOS as int,
        0 < tipo <= MAX_TIPO_E5 as int,
        0 <= importe <= MAX_IMPORTE_CENTIMOS as int,
        saldos_en_rango(cap, tipo, importe, meses),
    ensures
        filas_cuadro(cap, tipo, importe, meses, fecha).len() == meses,
        forall|j: int|
            0 <= j < meses ==> {
                let fila = #[trigger] filas_cuadro(cap, tipo, importe, meses, fecha)[j];
                &&& fila.cuota_total == importe
                &&& -(MAX_IMPORTE_CENTIMOS as int) <= fila.cap_pendiente_antes
                    <= MAX_IMPORTE_CENTIMOS as int
                &&& -(MAX_IMPORTE_CENTIMOS as int) <= fila.cuota_interes <= MAX_IMPORTE_CENTIMOS
                    as int
                &&& -(2 * MAX_IMPORTE_CENTIMOS as int) <= fila.cuota_capital <= 2
                    * MAX_IMPORTE_CENTIMOS as int
            },
        meses >= 1 ==> {
            let ultima = filas_cuadro(cap, tipo, importe, meses, fecha)[meses - 1];
            saldo_final(cap, tipo, importe, meses) == ultima.cap_pendiente_antes
                - ultima.cuota_capital
        },
    decreases meses,
{
    if meses >= 1 {
        let filas = filas_cuadro(cap, tipo, importe, meses, fecha);
        let interes = interes_mensual_spec(cap, tipo);
        let capital = importe - interes;
        let siguiente = cap - capital;
        let resto = filas_cuadro(siguiente, tipo, importe, meses - 1, spec_suma_un_mes(fecha));
        lemma_interes_acotado(cap, tipo);
        lemma_filas_cuadro(siguiente, tipo, importe, meses - 1, spec_suma_un_mes(fecha));
        assert(filas.len() == meses);
        assert forall|j: int| 0 <= j < meses implies {
            let fila = #[trigger] filas[j];
            &&& fila.cuota_total == importe
            &&& -(MAX_IMPORTE_CENTIMOS as int) <= fila.cap_pendiente_antes <= MAX_IMPORTE_CENTIMOS
                as int
            &&& -(MAX_IMPORTE_CENTIMOS as int) <= fila.cuota_interes <= MAX_IMPORTE_CENTIMOS as int
            &&& -(2 * MAX_IMPORTE_CENTIMOS as int) <= fila.cuota_capital <= 2
                * MAX_IMPORTE_CENTIMOS as int
        } by {
            if j == 0 {
                assert(filas[0] == fila_mensual(fecha, tipo, meses, cap, importe));
            } else {
                assert(filas[j] == resto[j - 1]);
            }
        }
        assert(saldo_final(cap, tipo, importe, meses) == saldo_final(
            siguiente,
            tipo,
            importe,
            meses - 1,
        ));
        if meses == 1 {
            assert(filas[0] == fila_mensual(fecha, tipo, meses, cap, importe));
            assert(saldo_final(siguiente, tipo, importe, 0) == siguiente);
        } else {
            assert(filas[meses - 1] == resto[meses - 2]);
        }
    }
}

/// La suma de las partes de capital de una sucesión de filas.
pub open spec fn suma_capitales(s: Seq<Fila>) -> int
    decreases s.len(),
{
    if s.len() == 0 {
        0
    } else {
        s[0].cuota_capital + suma_capitales(s.drop_first())
    }
}

/// La suma de las partes de capital de las filas sin ajustar es el capital
/// inicial menos el saldo final.
proof fn lemma_suma_filas(cap: int, tipo: int, importe: int, meses: int, fecha: Fecha)
    requires
        meses >= 0,
    ensures
        suma_capitales(filas_cuadro(cap, tipo, importe, meses, fecha)) == cap - saldo_final(
            cap,
            tipo,
            importe,
            meses,
        ),
    decreases meses,
{
    if meses > 0 {
        let filas = filas_cuadro(cap, tipo, importe, meses, fecha);
        let interes = interes_mensual_spec(cap, tipo);
        let capital = importe - interes;
        let resto = filas_cuadro(cap - capital, tipo, importe, meses - 1, spec_suma_un_mes(fecha));
        lemma_suma_filas(cap - capital, tipo, importe, meses - 1, spec_suma_un_mes(fecha));
        assert(filas.drop_first() =~= resto);
        assert(filas[0].cuota_capital == capital);
    }
}

/// Cambiar la última fila cambia la suma de capitales en la diferencia de
/// sus partes de capital.
proof fn lemma_suma_cambio_ultima(s: Seq<Fila>, nueva: Fila)
    requires
        s.len() >= 1,
    ensures
        suma_capitales(s.update(s.len() - 1, nueva)) == suma_capitales(s) - s[s.len()
            - 1].cuota_capital + nueva.cuota_capital,
    decreases s.len(),
{
    let cambiada = s.update(s.len() - 1, nueva);
    if s.len() == 1 {
        assert(cambiada.drop_first() =~= Seq::<Fila>::empty());
        assert(s.drop_first() =~= Seq::<Fila>::empty());
    } else {
        assert(cambiada.drop_first() =~= s.drop_first().update(s.drop_first().len() - 1, nueva));
        lemma_suma_cambio_ultima(s.drop_first(), nueva);
    }
}

/// La ley del método francés: para parámetros válidos, el cuadro tiene
/// exactamente `meses` cuotas, la suma de sus partes de capital es el
/// capital prestado al céntimo, y el saldo tras la última cuota es
/// exactamente cero.
pub proof fn lemma_cuadro_frances(cap: int, tipo: int, meses: int, primera: Fecha)
    requires
        parametros_validos(cap, tipo, meses, primera),
    ensures
        cuadro_modelo(cap, tipo, meses, primera).len() == meses,
        suma_capitales(cuadro_modelo(cap, tipo, meses, primera)) == cap,
        cuadro_modelo(cap, tipo, meses, primera)[meses - 1].cap_pendiente_despues() == 0,
{
    let importe = cuota_mensual_spec(cap, tipo, meses);
    let filas = filas_cuadro(cap, tipo, importe, meses, primera);
    let resto = saldo_final(cap, tipo, importe, meses);
    let cuadro = cuadro_modelo(cap, tipo, meses, primera);
    lemma_importe_no_negativo(cap, tipo, meses);
    lemma_filas_cuadro(cap, tipo, importe, meses, primera);
    lemma_suma_filas(cap, tipo, importe, meses, primera);
    let ultima = filas[meses - 1];
    if resto == 0 {
        assert(cuadro == filas);
    } else {
        let nueva = Fila {
            cuota_total: ultima.cuota_total + resto,
            cuota_capital: ultima.cuota_capital + resto,
            ..ultima
        };
        assert(cuadro == filas.update(meses - 1, nueva));
        lemma_suma_cambio_ultima(filas, nueva);
    }
}

/// Con parámetros positivos el importe de la cuota constante no es
/// negativo.
proof fn lemma_importe_no_negativo(cap: int, tipo: int, meses: int)
    requires
        0 < cap,
        0 < tipo,
        0 < meses,
    ensures
        cuota_mensual_spec(cap, tipo, meses) >= 0,
{
    lemma_factor_acotado(tipo, meses);
    let factor = factor_descuento(tipo, meses);
    let divisor = (DENOMINADOR_MENSUAL as int) * (ESCALA_FACTOR - factor);
    assert(divisor >= DENOMINADOR_MENSUAL as int) by (nonlinear_arith)
        requires
            divisor == (DENOMINADOR_MENSUAL as int) * (ESCALA_FACTOR - factor),
            ESCALA_FACTOR - factor >= 1,
    ;
    assert(cap * tipo * (ESCALA_FACTOR as int) >= 0) by (nonlinear_arith)
        requires
            cap > 0,
            tipo > 0,
    ;
    assert((cap * tipo * (ESCALA_FACTOR as int) + divisor / 2) / divisor >= 0) by (nonlinear_arith)
        requires
            divisor > 0,
            cap * tipo * (ESCALA_FACTOR as int) + divisor / 2 >= 0,
    ;
}

/// El factor de descuento queda en `[0, ESCALA_FACTOR]`, y por debajo de
/// la escala en cuanto hay al menos un mes con tipo positivo.
proof fn lemma_factor_acotado(tipo: int, k: int)
    requires
        0 < tipo,
    ensures
        0 <= factor_descuento(tipo, k) <= ESCALA_FACTOR as int,
        k >= 1 ==> factor_descuento(tipo, k) < ESCALA_FACTOR as int,
    decreases k,
{
    if k >= 1 {
        lemma_factor_acotado(tipo, k - 1);
        let anterior = factor_descuento(tipo, k - 1);
        let divisor = DENOMINADOR_MENSUAL + tipo;
        let nuevo = (anterior * (DENOMINADOR_MENSUAL as int) + divisor / 2) / divisor;
        assert(nuevo >= 0) by (nonlinear_arith)
            requires
                divisor > 0,
                anterior >= 0,
                nuevo == (anterior * (DENOMINADOR_MENSUAL as int) + divisor / 2) / divisor,
        ;
        assert(nuevo < ESCALA_FACTOR as int) by (nonlinear_arith)
            requires
                divisor == (DENOMINADOR_MENSUAL as int) + tipo,
                tipo >= 1,
                0 <= anterior <= ESCALA_FACTOR as int,
                nuevo == (anterior * (DENOMINADOR_MENSUAL as int) + divisor / 2) / divisor,
        ;
    }
}

/// La fila `j` del cuadro sin ajustar vence exactamente `j` meses después
/// de la primera cuota.
proof fn lemma_filas_fechas(cap: int, tipo: int, importe: int, meses: int, fecha: Fecha)
    requires
        meses >= 0,
    ensures
        filas_cuadro(cap, tipo, importe, meses, fecha).len() == meses,
        forall|j: int|
            0 <= j < meses ==> (#[trigger] filas_cuadro(cap, tipo, importe, meses, fecha)[j]).fecha
                == spec_suma_n_meses(fecha, j),
    decreases meses,
{
    if meses >= 1 {
        let filas = filas_cuadro(cap, tipo, importe, meses, fecha);
        let interes = interes_mensual_spec(cap, tipo);
        let siguiente_cap = cap - (importe - interes);
        let siguiente_fecha = spec_suma_un_mes(fecha);
        let resto = filas_cuadro(siguiente_cap, tipo, importe, meses - 1, siguiente_fecha);
        lemma_filas_fechas(siguiente_cap, tipo, importe, meses - 1, siguiente_fecha);
        assert forall|j: int| 0 <= j < meses implies (#[trigger] filas[j]).fecha
            == spec_suma_n_meses(fecha, j) by {
            if j == 0 {
                assert(filas[0] == fila_mensual(fecha, tipo, meses, cap, importe));
            } else {
                assert(filas[j] == resto[j - 1]);
                assert(resto[j - 1].fecha == spec_suma_n_meses(siguiente_fecha, j - 1));
                assert(spec_suma_n_meses(fecha, j) == spec_suma_n_meses(siguiente_fecha, j - 1));
            }
        }
    }
}

/// Las fechas de vencimiento del cuadro del método francés crecen
/// estrictamente: cada cuota vence un mes natural después de la anterior,
/// y el ajuste de redondeo final no toca ninguna fecha.
pub proof fn lemma_cuadro_fechas_crecientes(cap: int, tipo: int, meses: int, primera: Fecha)
    requires
        parametros_validos(cap, tipo, meses, primera),
    ensures
        crate::tabla_amort::fechas_ordenadas(cuadro_modelo(cap, tipo, meses, primera)),
        forall|j: int|
            0 <= j < meses ==> (#[trigger] cuadro_modelo(cap, tipo, meses, primera)[j]).fecha
                == spec_suma_n_meses(primera, j),
{
    let importe = cuota_mensual_spec(cap, tipo, meses);
    let filas = filas_cuadro(cap, tipo, importe, meses, primera);
    let resto = saldo_final(cap, tipo, importe, meses);
    let cuadro = cuadro_modelo(cap, tipo, meses, primera);
    lemma_importe_no_negativo(cap, tipo, meses);
    lemma_filas_cuadro(cap, tipo, importe, meses, primera);
    lemma_filas_fechas(cap, tipo, importe, meses, primera);
    assert forall|j: int| 0 <= j < meses implies (#[trigger] cuadro[j]).fecha == spec_suma_n_meses(
        primera,
        j,
    ) by {
        assert(cuadro[j].fecha == filas[j].fecha);
    }
    assert forall|i: int, j: int| 0 <= i < j < cuadro.len() implies fecha_lt(
        #[trigger] cuadro[i].fecha,
        #[trigger] cuadro[j].fecha,
    ) by {
        let fi = spec_suma_n_meses(primera, i);
        let fj = spec_suma_n_meses(primera, j);
        lemma_suma_n_meses(primera, i);
        lemma_suma_n_meses_compuesta(primera, i, j - i);
        lemma_suma_n_meses(fi, j - i);
        lemma_suma_n_meses(primera, j);
        if !fecha_lt(fi, fj) {
            lemma_orden_num(fj, fi);
        }
    }
}

/// Encadenamiento de las filas sin ajustar: la primera parte del capital
/// prestado con el plazo completo, y cada fila arrastra el saldo y el
/// plazo de la anterior.
proof fn lemma_filas_encadenadas(cap: int, tipo: int, importe: int, meses: int, fecha: Fecha)
    requires
        meses >= 0,
    ensures
        filas_cuadro(cap, tipo, importe, meses, fecha).len() == meses,
        meses >= 1 ==> filas_cuadro(cap, tipo, importe, meses, fecha)[0].cap_pendiente_antes == cap
            && filas_cuadro(cap, tipo, importe, meses, fecha)[0].meses_restantes_antes == meses,
        forall|k: int|
            0 <= k < meses - 1 ==> (#[trigger] filas_cuadro(cap, tipo, importe, meses, fecha)[k
                + 1]).cap_pendiente_antes == filas_cuadro(cap, tipo, importe, meses, fecha)[k].cap_pendiente_antes
                - filas_cuadro(cap, tipo, importe, meses, fecha)[k].cuota_capital && filas_cuadro(
                cap,
                tipo,
                importe,
                meses,
                fecha,
            )[k + 1].meses_restantes_antes == filas_cuadro(cap, tipo, importe, meses, fecha)[k].meses_restantes_antes
                - 1,
    decreases meses,
{
    if meses >= 1 {
        let filas = filas_cuadro(cap, tipo, importe, meses, fecha);
        let interes = interes_mensual_spec(cap, tipo);
        let capital = importe - interes;
        let resto = filas_cuadro(cap - capital, tipo, importe, meses - 1, spec_suma_un_mes(fecha));
        lemma_filas_encadenadas(cap - capital, tipo, importe, meses - 1, spec_suma_un_mes(fecha));
        assert forall|k: int| 0 <= k < meses - 1 implies {
            (#[trigger] filas[k + 1]).cap_pendiente_antes == filas[k].cap_pendiente_antes
                - filas[k].cuota_capital && filas[k + 1].meses_restantes_antes == filas[k].meses_restantes_antes
                - 1
        } by {
            assert(filas[k + 1] == resto[k]);
            if k == 0 {
                assert(filas[0] == fila_mensual(fecha, tipo, meses, cap, importe));
            } else {
                assert(filas[k] == resto[k - 1]);
                assert(resto[(k - 1) + 1].cap_pendiente_antes == resto[k - 1].cap_pendiente_antes
                    - resto[k - 1].cuota_capital && resto[(k - 1) + 1].meses_restantes_antes
                    == resto[k - 1].meses_restantes_antes - 1);
                assert(resto[(k - 1) + 1] == resto[k]);
            }
        }
    }
}

/// El invariante del cuadro completo: la primera cuota parte del capital
/// prestado con el plazo entero, el saldo previo de cada cuota es
/// exactamente el saldo tras pagar la anterior, y los meses restantes
/// bajan en uno de una cuota a la siguiente. El ajuste de redondeo de la
/// última cuota no altera nada de esto: sólo su total y su parte de
/// capital.
pub proof fn lemma_cuadro_encadenado(cap: int, tipo: int, meses: int, primera: Fecha)
    requires
        parametros_validos(cap, tipo, meses, primera),
    ensures
        cuadro_modelo(cap, tipo, meses, primera)[0].cap_pendiente_antes == cap,
        cuadro_modelo(cap, tipo, meses, primera)[0].meses_restantes_antes == meses,
        forall|k: int|
            0 <= k < meses - 1 ==> (#[trigger] cuadro_modelo(cap, tipo, meses, primera)[k
                + 1]).cap_pendiente_antes == cuadro_modelo(cap, tipo, meses, primera)[k].cap_pendiente_antes
                - cuadro_modelo(cap, tipo, meses, primera)[k].cuota_capital && cuadro_modelo(
                cap,
                tipo,
                meses,
                primera,
            )[k + 1].meses_restantes_antes == cuadro_modelo(cap, tipo, meses, primera)[k].meses_restantes_antes
                - 1,
{
    let importe = cuota_mensual_spec(cap, tipo, meses);
    let filas = filas_cuadro(cap, tipo, importe, meses, primera);
    let cuadro = cuadro_modelo(cap, tipo, meses, primera);
    lemma_filas_encadenadas(cap, tipo, importe, meses, primera);
    assert forall|k: int| 0 <= k < meses - 1 implies {
        (#[trigger] cuadro[k + 1]).cap_pendiente_antes == cuadro[k].cap_pendiente_antes
            - cuadro[k].cuota_capital && cuadro[k + 1].meses_restantes_antes == cuadro[k].meses_restantes_antes
            - 1
    } by {
        assert(cuadro[k + 1].cap_pendiente_antes == filas[k + 1].cap_pendiente_antes);
        assert(cuadro[k + 1].meses_restantes_antes == filas[k + 1].meses_restantes_antes);
        assert(cuadro[k].cap_pendiente_antes == filas[k].cap_pendiente_antes);
        assert(cuadro[k].meses_restantes_antes == filas[k].meses_restantes_antes);
        assert(cuadro[k].cuota_capital == filas[k].cuota_capital);
    }
}

/// Genera el cuadro de amortización completo de un capital prestado a
/// cierto número de meses con un tipo anual fijo (método francés), con el
/// ajuste de redondeo aplicado a la última cuota. Devuelve
/// `InvalidLoanParameters` exactamente cuando los parámetros no son
/// válidos: capital, tipo o plazo no positivos o fuera de los topes de la
/// biblioteca, fecha inválida, o un cuadro que se saldría del rango
/// monetario representable.
pub fn calcula_tabla_amortizacion(
    capital: i64,
    interes: i64,
    meses: i32,
    fecha_primera_cuota: Fecha,
) -> (r: Result<TablaAmortizacion, ErrorHipoteca>)
    ensures
        r is Ok <==> parametros_validos(
            capital as int,
            interes as int,
            meses as int,
            fecha_primera_cuota,
        ),
        r is Ok ==> r->Ok_0@ == cuadro_modelo(
            capital as int,
            interes as int,
            meses as int,
            fecha_primera_cuota,
        ),
{
    if capital <= 0 || capital > MAX_IMPORTE_CENTIMOS {
        return Err(ErrorHipoteca::InvalidLoanParameters);
    }
    if interes <= 0 || interes > MAX_TIPO_E5 {
        return Err(ErrorHipoteca::InvalidLoanParameters);
    }
    if meses <= 0 {
        return Err(ErrorHipoteca::InvalidLoanParameters);
    }
    if !fecha_primera_cuota.es_valida() {
        return Err(ErrorHipoteca::InvalidLoanParameters);
    }
    if fecha_primera_cuota.agno > MAX_AGNO - meses {
        return Err(ErrorHipoteca::InvalidLoanParameters);
    }
    let cuota_total: i64 = match importe_cuota_mensual(capital, interes, meses) {
        Ok(importe) => importe,
        Err(e) => {
            return Err(e);
        },
    };
    let ghost importe_g: int = cuota_total as int;
    let mut tabla = TablaAmortizacion::new();
    let mut fecha = fecha_primera_cuota;
    let mut meses_restantes: i32 = meses;
    let mut cap_pdte: i64 = capital;
    let mut k: i32 = 0;
    while k < meses
        invariant
            0 <= k <= meses,
            meses_restantes == meses - k,
            0 < capital <= MAX_IMPORTE_CENTIMOS,
            0 < interes <= MAX_TIPO_E5,
            0 <= cuota_total <= MAX_IMPORTE_CENTIMOS,
            importe_g == cuota_total as int,
            importe_g == cuota_mensual_spec(capital as int, interes as int, meses as int),
            -MAX_IMPORTE_CENTIMOS <= cap_pdte <= MAX_IMPORTE_CENTIMOS,
            fecha.valida(),
            fecha.agno + meses_restantes <= MAX_AGNO,
            tabla@.len() == k as int,
            filas_cuadro(
                capital as int,
                interes as int,
                importe_g,
                meses as int,
                fecha_primera_cuota,
            ) == tabla@ + filas_cuadro(
                cap_pdte as int,
                interes as int,
                importe_g,
                meses_restantes as int,
                fecha,
            ),
            saldo_final(capital as int, interes as int, importe_g, meses as int) == saldo_final(
                cap_pdte as int,
                interes as int,
                importe_g,
                meses_restantes as int,
            ),
            saldos_en_rango(capital as int, interes as int, importe_g, meses as int)
                <==> saldos_en_rango(
                cap_pdte as int,
                interes as int,
                importe_g,
                meses_restantes as int,
            ),
        decreases meses - k,
    {
        let cuota_interes: i64 = intereses_mes(cap_pdte, interes);
        let cuota_capital: i64 = cuota_total - cuota_interes;
        let cuota = Cuota::new(
            fecha,
            interes,
            meses_restantes,
            cap_pdte,
            cuota_total,
            cuota_capital,
            cuota_interes,
        );
        let ghost tabla_antes = tabla@;
        tabla.push(cuota);
        let nuevo_saldo: i128 = (cap_pdte as i128) - (cuota_capital as i128);
        proof {
            assert(cuota@ == fila_mensual(
                fecha,
                interes as int,
                meses_restantes as int,
                cap_pdte as int,
                importe_g,
            ));
            assert(filas_cuadro(
                cap_pdte as int,
                interes as int,
                importe_g,
                meses_restantes as int,
                fecha,
            ) == seq![cuota@] + filas_cuadro(
                nuevo_saldo as int,
                interes as int,
                importe_g,
                meses_restantes - 1,
                spec_suma_un_mes(fecha),
            ));
            assert(tabla_antes + (seq![cuota@] + filas_cuadro(
                nuevo_saldo as int,
                interes as int,
                importe_g,
                meses_restantes - 1,
                spec_suma_un_mes(fecha),
            )) =~= tabla_antes.push(cuota@) + filas_cuadro(
                nuevo_saldo as int,
                interes as int,
                importe_g,
                meses_restantes - 1,
                spec_suma_un_mes(fecha),
            ));
        }
        if nuevo_saldo < -(MAX_IMPORTE_CENTIMOS as i128) || nuevo_saldo > (MAX_IMPORTE_CENTIMOS
            as i128) {
            return Err(ErrorHipoteca::InvalidLoanParameters);
        }
        cap_pdte = nuevo_saldo as i64;
        fecha = add_one_month(fecha);
        meses_restantes = meses_restantes - 1;
        k = k + 1;
    }
    proof {
        assert(filas_cuadro(cap_pdte as int, interes as int, importe_g, 0, fecha) =~= Seq::<
            Fila,
        >::empty());
        assert(tabla@ + Seq::<Fila>::empty() =~= tabla@);
        lemma_filas_cuadro(
            capital as int,
            interes as int,
            importe_g,
            meses as int,
            fecha_primera_cuota,
        );
    }
    if cap_pdte != 0 {
        let ghost filas_previas = tabla@;
        let mut ultima: Cuota = match tabla.cuotas.pop() {
            Some(cuota) => cuota,
            None => {
                return Err(ErrorHipoteca::InvalidLoanParameters);
            },
        };
        proof {
            assert(ultima@ == filas_previas[meses - 1]);
        }
        ultima.cuota_total = ultima.cuota_total + cap_pdte;
        ultima.cuota_capital = ultima.cuota_capital + cap_pdte;
        tabla.cuotas.push(ultima);
        proof {
            assert(tabla@ =~= ajusta_ultima(filas_previas, cap_pdte as int));
        }
    }
    Ok(tabla)
}

} // verus!

