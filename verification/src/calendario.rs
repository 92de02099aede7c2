use vstd::prelude::*;

use crate::aritmetica::MAX_AGNO;
use crate::errores::ErrorHipoteca;

verus! {

/// Una fecha del calendario gregoriano: año, mes (1..=12) y día.
#[derive(Clone, Copy, Debug, PartialEq, Eq, Structural)]
pub struct Fecha {
    pub agno: i32,
    pub mes: u32,
    pub dia: u32,
}

/// Regla gregoriana de los años bisiestos: divisible por 4 y, o bien no
/// divisible por 100, o bien divisible por 400.
pub open spec fn spec_es_bisiesto(agno: int) -> bool {
    agno % 4 == 0 && (agno % 100 != 0 || agno % 400 == 0)
}

/// Número de días del mes `mes` del año `agno`.
pub open spec fn ultimo_dia_spec(agno: int, mes: int) -> int {
    if mes == 2 {
        if spec_es_bisiesto(agno) {
            29
        } else {
            28
        }
    } else if mes == 4 || mes == 6 || mes == 9 || mes == 11 {
        30
    } else {
        31
    }
}

/// Orden estricto de fechas: lexicográfico sobre (año, mes, día).
pub open spec fn fecha_lt(a: Fecha, b: Fecha) -> bool {
    a.agno < b.agno || (a.agno == b.agno && (a.mes < b.mes || (a.mes == b.mes && a.dia < b.dia)))
}

/// Orden no estricto de fechas.
pub open spec fn fecha_le(a: Fecha, b: Fecha) -> bool {
    fecha_lt(a, b) || a == b
}

/// Clave numérica que respeta el orden de las fechas válidas; sirve de
/// medida de terminación para los bucles que avanzan de mes en mes.
pub open spec fn fecha_num(f: Fecha) -> int {
    (f.agno * 12 + f.mes) * 31 + f.dia
}

/// La fecha un mes natural posterior, con el día ajustado a la longitud
/// del mes de destino cuando el de origen lo excede.
pub open spec fn spec_suma_un_mes(f: Fecha) -> Fecha {
    let agno2: int = if f.mes == 12 {
        f.agno + 1
    } else {
        f.agno as int
    };
    let mes2: int = if f.mes == 12 {
        1
    } else {
        f.mes + 1
    };
    let tope = ultimo_dia_spec(agno2, mes2);
    let dia2: int = if f.dia <= tope {
        f.dia as int
    } else {
        tope
    };
    Fecha { agno: agno2 as i32, mes: mes2 as u32, dia: dia2 as u32 }
}

/// La fecha `n` meses naturales posterior (sin cambio si `n <= 0`),
/// aplicando `spec_suma_un_mes` una vez por mes.
pub open spec fn spec_suma_n_meses(f: Fecha, n: int) -> Fecha
    decreases n,
{
    if n <= 0 {
        f
    } else {
        spec_suma_n_meses(spec_suma_un_mes(f), n - 1)
    }
}

impl Fecha {
    /// Una fecha es válida si su mes está en 1..=12, su día existe en ese
    /// mes y su año queda dentro del rango que maneja la biblioteca.
    pub open spec fn valida(self) -> bool {
        1 <= self.agno <= MAX_AGNO && 1 <= self.mes <= 12 && 1 <= self.dia && self.dia
            as int <= ultimo_dia_spec(self.agno as int, self.mes as int)
    }

    /// Construye la fecha dada por sus tres componentes, que deben formar
    /// una fecha válida del calendario.
    pub fn new(agno: i32, mes: u32, dia: u32) -> (r: Fecha)
        requires
            (Fecha { agno, mes, dia }).valida(),
        ensures
            r == (Fecha { agno, mes, dia }),
    {
        Fecha { agno, mes, dia }
    }

    /// Comprobación ejecutable de la validez de la fecha.
    pub fn es_valida(&self) -> (r: bool)
        ensures
            r == self.valida(),
    {
        if self.agno < 1 || self.agno > MAX_AGNO || self.mes < 1 || self.mes > 12 || self.dia < 1 {
            return false;
        }
        let tope = ultimo_dia(self.agno, self.mes);
        self.dia <= tope
    }

    /// ¿Es `self` estrictamente anterior a `otra`?
    pub fn es_anterior(&self, otra: &Fecha) -> (r: bool)
        ensures
            r == fecha_lt(*self, *otra),
    {
        if self.agno != otra.agno {
            self.agno < otra.agno
        } else if self.mes != otra.mes {
            self.mes < otra.mes
        } else {
            self.dia < otra.dia
        }
    }

    /// ¿Es `self` anterior o igual a `otra`?
    pub fn es_anterior_o_igual(&self, otra: &Fecha) -> (r: bool)
        ensures
            r == fecha_le(*self, *otra),
    {
        if self.agno != otra.agno {
            self.agno < otra.agno
        } else if self.mes != otra.mes {
            self.mes < otra.mes
        } else {
            self.dia <= otra.dia
        }
    }
}

/// ¿Es `year` bisiesto según la regla gregoriana?
pub fn is_leap_year(year: i32) -> (r: bool)
    requires
        year >= 0,
    ensures
        r == spec_es_bisiesto(year as int),
{
    year % 4 == 0 && (year % 100 != 0 || year % 400 == 0)
}

/// Número del último día (longitud) del mes `month` del año `year`, o
/// `InvalidMonth` si el mes no está en 1..=12.
pub fn last_day_of_month(year: i32, month: u32) -> (r: Result<u32, ErrorHipoteca>)
    requires
        year >= 0,
    ensures
        r is Ok <==> 1 <= month <= 12,
        r is Ok ==> r->Ok_0 as int == ultimo_dia_spec(year as int, month as int),
{
    if month < 1 || month > 12 {
        return Err(ErrorHipoteca::InvalidMonth);
    }
    Ok(ultimo_dia(year, month))
}

/// Longitud del mes para un mes ya comprobado.
pub(crate) fn ultimo_dia(year: i32, month: u32) -> (r: u32)
    requires
        year >= 0,
        1 <= month <= 12,
    ensures
        r as int == ultimo_dia_spec(year as int, month as int),
        28 <= r <= 31,
{
    if month == 2 {
        if is_leap_year(year) {
            29
        } else {
            28
        }
    } else if month == 4 || month == 6 || month == 9 || month == 11 {
        30
    } else {
        31
    }
}

/// El año y mes del mes anterior, o `InvalidMonth` si el mes no está en
/// 1..=12: enero retrocede a diciembre del año anterior.
pub fn mes_anterior(year: i32, month: u32) -> (r: Result<(i32, u32), ErrorHipoteca>)
    requires
        year > i32::MIN,
    ensures
        r is Ok <==> 1 <= month <= 12,
        month == 1 ==> r == Ok::<(i32, u32), ErrorHipoteca>(((year - 1) as i32, 12u32)),
        1 < month <= 12 ==> r == Ok::<(i32, u32), ErrorHipoteca>((year, (month - 1) as u32)),
{
    if month < 1 || month > 12 {
        return Err(ErrorHipoteca::InvalidMonth);
    }
    if month == 1 {
        Ok((year - 1, 12))
    } else {
        Ok((year, month - 1))
    }
}

/// La fecha un mes natural posterior, con el día ajustado al fin de mes:
/// una vez ajustado (31 -> 28), las sumas posteriores parten del día
/// ajustado, no del original.
pub fn add_one_month(date: Fecha) -> (r: Fecha)
    requires
        date.valida(),
        date.agno < MAX_AGNO,
    ensures
        r == spec_suma_un_mes(date),
        r.valida(),
        r.agno <= date.agno + 1,
        fecha_num(r) > fecha_num(date),
{
    let agno2: i32 = if date.mes == 12 {
        date.agno + 1
    } else {
        date.agno
    };
    let mes2: u32 = if date.mes == 12 {
        1
    } else {
        date.mes + 1
    };
    let tope = ultimo_dia(agno2, mes2);
    let dia2: u32 = if date.dia <= tope {
        date.dia
    } else {
        tope
    };
    Fecha { agno: agno2, mes: mes2, dia: dia2 }
}

/// `spec_suma_un_mes` conserva la validez y hace crecer estrictamente la
/// clave numérica de la fecha.
pub proof fn lemma_suma_un_mes(f: Fecha)
    requires
        f.valida(),
        f.agno < MAX_AGNO,
    ensures
        spec_suma_un_mes(f).valida(),
        spec_suma_un_mes(f).agno <= f.agno + 1,
        fecha_num(spec_suma_un_mes(f)) > fecha_num(f),
        spec_suma_un_mes(f).agno * 12 + spec_suma_un_mes(f).mes == f.agno * 12 + f.mes + 1,
{
}

/// `spec_suma_n_meses` conserva la validez, no adelanta el año más de un
/// año por mes y no retrocede la fecha; con `n >= 1` la adelanta
/// estrictamente.
pub proof fn lemma_suma_n_meses(f: Fecha, n: int)
    requires
        f.valida(),
        f.agno + (if n > 0 {
            n
        } else {
            0
        }) <= MAX_AGNO,
    ensures
        spec_suma_n_meses(f, n).valida(),
        spec_suma_n_meses(f, n).agno <= f.agno + (if n > 0 {
            n
        } else {
            0
        }),
        fecha_num(spec_suma_n_meses(f, n)) >= fecha_num(f),
        n >= 1 ==> fecha_num(spec_suma_n_meses(f, n)) > fecha_num(f),
        spec_suma_n_meses(f, n).agno * 12 + spec_suma_n_meses(f, n).mes == f.agno * 12 + f.mes + (
        if n > 0 {
            n
        } else {
            0
        }),
    decreases n,
{
    if n > 0 {
        lemma_suma_un_mes(f);
        lemma_suma_n_meses(spec_suma_un_mes(f), n - 1);
    }
}

/// En fechas válidas, el orden lexicográfico coincide con el orden de la
/// clave numérica.
pub proof fn lemma_orden_num(a: Fecha, b: Fecha)
    requires
        a.valida(),
        b.valida(),
    ensures
        fecha_le(a, b) ==> fecha_num(a) <= fecha_num(b),
        fecha_lt(a, b) ==> fecha_num(a) < fecha_num(b),
{
}

/// La fecha `num_meses` meses naturales posterior (sin cambio si
/// `num_meses <= 0`), iterando `add_one_month`.
pub fn add_n_months(date: Fecha, num_meses: i32) -> (r: Fecha)
    requires
        date.valida(),
        date.agno + (if num_meses > 0 {
            num_meses as int
        } else {
            0
        }) <= MAX_AGNO,
    ensures
        r == spec_suma_n_meses(date, num_meses as int),
        r.valida(),
{
    let mut fecha = date;
    if num_meses <= 0 {
        return fecha;
    }
    let mut i: i32 = 0;
    while i < num_meses
        invariant
            0 <= i <= num_meses,
            fecha.valida(),
            fecha.agno + (num_meses - i) <= MAX_AGNO,
            spec_suma_n_meses(date, num_meses as int) == spec_suma_n_meses(fecha, (num_meses - i) as int),
        decreases num_meses - i,
    {
        fecha = add_one_month(fecha);
        i = i + 1;
    }
    fecha
}

/// Componer `add_one_month` una vez coincide con `add_n_months` con
/// `n == 1`, ajuste al fin de mes incluido.
pub proof fn lemma_suma_n_meses_uno(f: Fecha)
    ensures
        spec_suma_n_meses(f, 1) == spec_suma_un_mes(f),
{
    assert(spec_suma_n_meses(spec_suma_un_mes(f), 0) == spec_suma_un_mes(f));
}

/// Sumar `a + b` meses es sumar `a` meses y después `b`.
pub proof fn lemma_suma_n_meses_compuesta(f: Fecha, a: int, b: int)
    requires
        a >= 0,
        b >= 0,
    ensures
        spec_suma_n_meses(f, a + b) == spec_suma_n_meses(spec_suma_n_meses(f, a), b),
    decreases a,
{
    if a > 0 {
        lemma_suma_n_meses_compuesta(spec_suma_un_mes(f), a - 1, b);
    }
}

/// Número de años bisiestos en 1..=agno.
pub open spec fn bisiestos_hasta(agno: int) -> int {
    agno / 4 - agno / 100 + agno / 400
}

/// Días transcurridos del año `agno` antes de empezar el mes `mes`.
pub open spec fn dias_acumulados_mes(agno: int, mes: int) -> int
    decreases mes,
{
    if mes <= 1 {
        0
    } else {
        dias_acumulados_mes(agno, mes - 1) + ultimo_dia_spec(agno, mes - 1)
    }
}

/// Ordinal de la fecha en el calendario gregoriano proléptico: el número
/// de días desde el día anterior al 1 de enero del año 1. La diferencia de
/// dos ordinales es el número de días naturales entre las dos fechas.
pub open spec fn dias_civiles(f: Fecha) -> int {
    365 * (f.agno - 1) + bisiestos_hasta(f.agno - 1) + dias_acumulados_mes(
        f.agno as int,
        f.mes as int,
    ) + f.dia
}

/// Ordinal ejecutable de una fecha válida.
pub fn numero_dias_civiles(f: Fecha) -> (r: i64)
    requires
        f.valida(),
    ensures
        r as int == dias_civiles(f),
        0 < r <= 366 * (MAX_AGNO as i64),
{
    let a: u64 = (f.agno - 1) as u64;
    let base: u64 = 365 * a + a / 4 - a / 100 + a / 400;
    proof {
        assert(a / 100 <= a && a / 4 <= a && a / 400 <= a) by (nonlinear_arith);
        assert(a / 100 <= 365 * a + a / 4) by (nonlinear_arith);
    }
    let acumulado: u64 = if f.mes == 1 {
        0
    } else if f.mes == 2 {
        31
    } else if f.mes == 3 {
        59
    } else if f.mes == 4 {
        90
    } else if f.mes == 5 {
        120
    } else if f.mes == 6 {
        151
    } else if f.mes == 7 {
        181
    } else if f.mes == 8 {
        212
    } else if f.mes == 9 {
        243
    } else if f.mes == 10 {
        273
    } else if f.mes == 11 {
        304
    } else {
        334
    };
    let ajuste: u64 = if f.mes > 2 && is_leap_year(f.agno) {
        1
    } else {
        0
    };
    proof {
        reveal_with_fuel(dias_acumulados_mes, 13);
        assert(acumulado + ajuste == dias_acumulados_mes(f.agno as int, f.mes as int));
    }
    (base + acumulado + ajuste + (f.dia as u64)) as i64
}

} // verus!
