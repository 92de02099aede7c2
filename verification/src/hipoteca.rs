use vstd::prelude::*;

use crate::aritmetica::{
    divide_redondeando, redondeo_division, DENOMINADOR_DIARIO, MAX_AGNO, MAX_IMPORTE_CENTIMOS,
    MAX_TIPO_E5,
};
use crate::calculo::{calcula_tabla_amortizacion, cuadro_modelo, parametros_validos};
use crate::calendario::{
    add_n_months, dias_civiles, fecha_le, fecha_lt, fecha_num, lemma_orden_num, lemma_suma_n_meses,
    numero_dias_civiles, spec_suma_n_meses, Fecha,
};
use crate::cuota::{Cuota, Fila};
use crate::errores::ErrorHipoteca;
use crate::euribor_data::{actualiza_euribor_spec, fecha_en_rango_euribor};
use crate::novacion::Novacion;
use crate::tabla_amort::{
    aplica_revision, fechas_ordenadas, filtra, lemma_filtra_tramo, paso_revision_valido,
    TablaAmortizacion,
};

verus! {

/// Medida de terminación de los bucles que avanzan una fecha de mes en
/// mes hasta rebasar `ultimo`: cuántas claves numéricas quedan por
/// recorrer, y cero una vez rebasado.
pub open spec fn medida_hasta(f: Fecha, ultimo: Fecha) -> int {
    if fecha_le(f, ultimo) {
        fecha_num(ultimo) + 1 - fecha_num(f)
    } else {
        0
    }
}

/// Las fechas `f, f + intervalo, f + 2·intervalo, ...` mientras no pasen
/// de `ultimo`.
pub open spec fn fechas_siguientes(f: Fecha, intervalo: int, ultimo: Fecha) -> Seq<Fecha>
    decreases medida_hasta(f, ultimo),
        when 1 <= intervalo && f.valida() && ultimo.valida() && ultimo.agno + intervalo
            <= MAX_AGNO as int
        via fechas_siguientes_decrece
{
    if fecha_le(f, ultimo) {
        seq![f] + fechas_siguientes(spec_suma_n_meses(f, intervalo), intervalo, ultimo)
    } else {
        Seq::<Fecha>::empty()
    }
}

#[via_fn]
proof fn fechas_siguientes_decrece(f: Fecha, intervalo: int, ultimo: Fecha) {
    if fecha_le(f, ultimo) {
        lemma_orden_num(f, ultimo);
        lemma_suma_n_meses(f, intervalo);
        lemma_orden_num(spec_suma_n_meses(f, intervalo), ultimo);
    }
}

/// Las fechas de revisión del contrato: la primera revisión es la primera
/// cuota más los meses iniciales (se anota aunque pase del vencimiento), y
/// las siguientes avanzan de `intervalo` en `intervalo` meses mientras no
/// pasen del último vencimiento.
pub open spec fn fechas_revisiones_modelo(
    primera_cuota: Fecha,
    meses_hasta: int,
    intervalo: int,
    ultimo: Fecha,
) -> Seq<Fecha> {
    let primera_revision = spec_suma_n_meses(primera_cuota, meses_hasta);
    seq![primera_revision] + fechas_siguientes(
        spec_suma_n_meses(primera_revision, intervalo),
        intervalo,
        ultimo,
    )
}

/// Todas las fechas de `fechas_siguientes` son válidas y no retroceden en
/// (año, mes) respecto del punto de partida.
proof fn lemma_fechas_siguientes_validas(f: Fecha, intervalo: int, ultimo: Fecha)
    requires
        1 <= intervalo,
        f.valida(),
        ultimo.valida(),
        ultimo.agno + intervalo <= MAX_AGNO as int,
    ensures
        forall|j: int|
            0 <= j < fechas_siguientes(f, intervalo, ultimo).len() ==> {
                let g = #[trigger] fechas_siguientes(f, intervalo, ultimo)[j];
                g.valida() && g.agno * 12 + g.mes >= f.agno * 12 + f.mes
            },
    decreases medida_hasta(f, ultimo),
{
    if fecha_le(f, ultimo) {
        lemma_orden_num(f, ultimo);
        lemma_suma_n_meses(f, intervalo);
        lemma_orden_num(spec_suma_n_meses(f, intervalo), ultimo);
        let siguiente = spec_suma_n_meses(f, intervalo);
        lemma_fechas_siguientes_validas(siguiente, intervalo, ultimo);
        let todas = fechas_siguientes(f, intervalo, ultimo);
        let resto = fechas_siguientes(siguiente, intervalo, ultimo);
        assert forall|j: int| 0 <= j < todas.len() implies {
            let g = #[trigger] todas[j];
            g.valida() && g.agno * 12 + g.mes >= f.agno * 12 + f.mes
        } by {
            if j > 0 {
                assert(todas[j] == resto[j - 1]);
            }
        }
    }
}

/// Un cuadro inicial transformado por una sucesión de fechas de revisión,
/// en orden: en cada fecha se aplica la regla del euríbor y se reconstruye
/// el resto del cuadro, o todo el cálculo falla si el generador rechaza
/// los datos de algún empalme.
pub open spec fn cuadro_revisado_modelo(
    t: Seq<Fila>,
    fechas: Seq<Fecha>,
    incremento: int,
    i_min: int,
    i_max: int,
) -> Option<Seq<Fila>>
    decreases fechas.len(),
{
    if fechas.len() == 0 {
        Some(t)
    } else {
        let tipo = actualiza_euribor_spec(fechas[0], incremento, i_min, i_max);
        if paso_revision_valido(t, fechas[0], tipo) {
            cuadro_revisado_modelo(
                aplica_revision(t, fechas[0], tipo),
                fechas.drop_first(),
                incremento,
                i_min,
                i_max,
            )
        } else {
            None
        }
    }
}

/// El cuadro con actualizaciones del euríbor que corresponde a unos
/// parámetros contractuales: el cuadro inicial del método francés
/// transformado por todas las fechas de revisión, o nada si el generador
/// rechaza los parámetros o algún empalme falla.
pub open spec fn cuadro_euribor_de(
    cap: int,
    tipo: int,
    meses: int,
    primera: Fecha,
    meses_hasta: int,
    intervalo: int,
    incremento: int,
    i_min: int,
    i_max: int,
) -> Option<Seq<Fila>> {
    if !parametros_validos(cap, tipo, meses, primera) {
        None
    } else {
        cuadro_revisado_modelo(
            cuadro_modelo(cap, tipo, meses, primera),
            fechas_revisiones_modelo(
                primera,
                meses_hasta,
                intervalo,
                spec_suma_n_meses(primera, meses - 1),
            ),
            incremento,
            i_min,
            i_max,
        )
    }
}

/// El invariante del cuadro sobrevive a toda la cadena de revisiones: si
/// el cálculo revisado tiene éxito sobre un cuadro de fechas
/// estrictamente crecientes, su resultado también las tiene.
pub proof fn lemma_revisado_ordenado(
    t: Seq<Fila>,
    fechas: Seq<Fecha>,
    incremento: int,
    i_min: int,
    i_max: int,
)
    requires
        fechas_ordenadas(t),
        cuadro_revisado_modelo(t, fechas, incremento, i_min, i_max) is Some,
    ensures
        fechas_ordenadas(cuadro_revisado_modelo(t, fechas, incremento, i_min, i_max)->0),
    decreases fechas.len(),
{
    if fechas.len() > 0 {
        let tipo = actualiza_euribor_spec(fechas[0], incremento, i_min, i_max);
        crate::tabla_amort::lemma_revision_ordenada(t, fechas[0], tipo);
        lemma_revisado_ordenado(
            aplica_revision(t, fechas[0], tipo),
            fechas.drop_first(),
            incremento,
            i_min,
            i_max,
        );
    }
}

/// El cuadro revisado de un contrato conserva el invariante de fechas
/// estrictamente crecientes del cuadro inicial.
pub proof fn lemma_cuadro_euribor_ordenado(
    cap: int,
    tipo: int,
    meses: int,
    primera: Fecha,
    meses_hasta: int,
    intervalo: int,
    incremento: int,
    i_min: int,
    i_max: int,
)
    requires
        cuadro_euribor_de(
            cap,
            tipo,
            meses,
            primera,
            meses_hasta,
            intervalo,
            incremento,
            i_min,
            i_max,
        ) is Some,
    ensures
        fechas_ordenadas(
            cuadro_euribor_de(
                cap,
                tipo,
                meses,
                primera,
                meses_hasta,
                intervalo,
                incremento,
                i_min,
                i_max,
            )->0,
        ),
{
    crate::calculo::lemma_cuadro_fechas_crecientes(cap, tipo, meses, primera);
    lemma_revisado_ordenado(
        cuadro_modelo(cap, tipo, meses, primera),
        fechas_revisiones_modelo(
            primera,
            meses_hasta,
            intervalo,
            spec_suma_n_meses(primera, meses - 1),
        ),
        incremento,
        i_min,
        i_max,
    );
}

/// ¿Está la fila dentro de la ventana de impago `[impago, resolucion]`?
pub open spec fn en_ventana(f: Fila, impago: Fecha, resolucion: Fecha) -> bool {
    fecha_le(impago, f.fecha) && fecha_le(f.fecha, resolucion)
}

/// La cuota sintética de liquidación del impago: todo el capital pendiente
/// tras la última cuota de la ventana, más el interés simple diario
/// (convención actual/365) devengado hasta la fecha de resolución.
pub open spec fn fila_liquidacion(ultima: Fila, resolucion: Fecha) -> Fila {
    let cap = ultima.cap_pendiente_antes - ultima.cuota_capital;
    let dias = dias_civiles(resolucion) - dias_civiles(ultima.fecha);
    let interes = redondeo_division(cap * dias * ultima.i, DENOMINADOR_DIARIO as int);
    Fila {
        fecha: resolucion,
        i: ultima.i,
        meses_restantes_antes: ultima.meses_restantes_antes,
        cap_pendiente_antes: cap,
        cuota_total: cap + interes,
        cuota_capital: cap,
        cuota_interes: interes,
    }
}

/// ¿Caben los importes de la cuota de liquidación en el rango monetario de
/// la biblioteca?
pub open spec fn liquidacion_representable(ultima: Fila, resolucion: Fecha) -> bool {
    let cap = ultima.cap_pendiente_antes - ultima.cuota_capital;
    &&& ultima.fecha.valida()
    &&& -(MAX_IMPORTE_CENTIMOS as int) <= cap <= MAX_IMPORTE_CENTIMOS as int
    &&& -(MAX_TIPO_E5 as int) <= ultima.i <= MAX_TIPO_E5 as int
    &&& -(MAX_IMPORTE_CENTIMOS as int) <= fila_liquidacion(ultima, resolucion).cuota_interes
        <= MAX_IMPORTE_CENTIMOS as int
}

/// El contrato hipotecario: los parámetros de la escritura, las fechas de
/// revisión derivadas y los tres cuadros calculados (inicial, con
/// actualizaciones del euríbor, y de impago).
pub struct Hipoteca {
    /// Identificador de la operación; da nombre a los ficheros de salida.
    pub nombre_operacion: String,
    /// Fecha inicial de la hipoteca establecida en la escritura.
    pub fecha_escritura: Fecha,
    /// Fecha de pago de la primera cuota.
    pub fecha_primera_cuota: Fecha,
    /// Capital inicial prestado, en céntimos.
    pub capital_prestado: i64,
    /// Tipo de interés nominal anual inicial, en cienmilésimas.
    pub tipo_interes_anual: i64,
    /// Meses para amortizar la hipoteca.
    pub meses: i32,
    /// Meses de aplicación del tipo inicial antes de la primera revisión.
    pub meses_hasta_primera_revision: i32,
    /// Meses entre revisiones del tipo de interés.
    pub intervalo_revisiones: i32,
    /// Diferencial aplicado sobre el euríbor en las revisiones.
    pub incremento_euribor: i64,
    /// Fechas en las que se deben producir las revisiones.
    pub fechas_revisiones: Vec<Fecha>,
    /// Tipo mínimo (suelo) establecido en las cláusulas.
    pub i_min: i64,
    /// Tipo máximo (techo) establecido en las cláusulas.
    pub i_max: i64,
    /// Fecha en la que se produjo el impago, si lo hubo.
    pub fecha_impago: Option<Fecha>,
    /// Fecha de la resolución del contrato, si la hubo.
    pub fecha_resolucion: Option<Fecha>,
    /// Novaciones y ampliaciones del contrato.
    pub novaciones: Vec<Novacion>,
    /// Cuadro completo calculado con el tipo inicial, sin revisiones.
    pub tabla_amort_sin_actualizacion: TablaAmortizacion,
    /// Cuadro con las actualizaciones del euríbor aplicadas.
    pub tabla_amort_con_actualizacion_euribor: TablaAmortizacion,
    /// Cuadro del periodo entre el impago y la resolución.
    pub tabla_amort_impago: TablaAmortizacion,
}

/// Los parámetros contractuales que el resto del cálculo necesita: fechas
/// válidas y dentro del rango con datos del euríbor, plazos positivos y
/// años dentro del rango del calendario; si hay fecha de impago, hay
/// también fecha de resolución.
pub open spec fn contrato_valido(
    fecha_escritura: Fecha,
    fecha_primera_cuota: Fecha,
    meses: int,
    meses_hasta: int,
    intervalo: int,
    fecha_impago: Option<Fecha>,
    fecha_resolucion: Option<Fecha>,
) -> bool {
    &&& fecha_escritura.valida()
    &&& fecha_primera_cuota.valida()
    &&& fecha_en_rango_euribor(fecha_primera_cuota)
    &&& 0 < meses
    &&& 0 <= meses_hasta
    &&& 1 <= intervalo
    &&& fecha_primera_cuota.agno + meses + meses_hasta + intervalo <= MAX_AGNO as int
    &&& (fecha_impago is Some ==> fecha_impago->0.valida() && fecha_resolucion is Some)
    &&& (fecha_resolucion is Some ==> fecha_resolucion->0.valida())
}

impl Hipoteca {
    /// Los parámetros del contrato cumplen `contrato_valido`.
    pub open spec fn parametros_contrato_validos(self) -> bool {
        contrato_valido(
            self.fecha_escritura,
            self.fecha_primera_cuota,
            self.meses as int,
            self.meses_hasta_primera_revision as int,
            self.intervalo_revisiones as int,
            self.fecha_impago,
            self.fecha_resolucion,
        )
    }

    /// La fecha del último vencimiento del préstamo.
    pub open spec fn fecha_ultimo_vencimiento_spec(self) -> Fecha {
        spec_suma_n_meses(self.fecha_primera_cuota, self.meses - 1)
    }

    /// La lista de fechas de revisión que corresponde a los parámetros.
    pub open spec fn fechas_revisiones_spec(self) -> Seq<Fecha> {
        fechas_revisiones_modelo(
            self.fecha_primera_cuota,
            self.meses_hasta_primera_revision as int,
            self.intervalo_revisiones as int,
            self.fecha_ultimo_vencimiento_spec(),
        )
    }

    /// El cuadro con actualizaciones del euríbor que corresponde a los
    /// parámetros: el cuadro inicial transformado por todas las fechas de
    /// revisión, o nada si algún paso falla.
    pub open spec fn cuadro_euribor_spec(self) -> Option<Seq<Fila>> {
        cuadro_euribor_de(
            self.capital_prestado as int,
            self.tipo_interes_anual as int,
            self.meses as int,
            self.fecha_primera_cuota,
            self.meses_hasta_primera_revision as int,
            self.intervalo_revisiones as int,
            self.incremento_euribor as int,
            self.i_min as int,
            self.i_max as int,
        )
    }

    /// Crea un contrato y calcula en el acto sus fechas de revisión, su
    /// cuadro inicial y su cuadro con actualizaciones del euríbor.
    /// Devuelve `InvalidLoanParameters` exactamente cuando los parámetros
    /// contractuales no valen, el generador del cuadro los rechaza, o
    /// algún empalme de revisión falla.
    pub fn new(
        nombre_operacion: String,
        fecha_escritura: Fecha,
        fecha_primera_cuota: Fecha,
        capital_prestado: i64,
        tipo_interes_anual: i64,
        meses: i32,
        meses_hasta_primera_revision: i32,
        intervalo_revisiones: i32,
        incremento_euribor: i64,
        i_min: i64,
        i_max: i64,
        fecha_impago: Option<Fecha>,
        fecha_resolucion: Option<Fecha>,
    ) -> (r: Result<Hipoteca, ErrorHipoteca>)
        ensures
            r is Ok <==> contrato_valido(
                fecha_escritura,
                fecha_primera_cuota,
                meses as int,
                meses_hasta_primera_revision as int,
                intervalo_revisiones as int,
                fecha_impago,
                fecha_resolucion,
            ) && cuadro_euribor_de(
                capital_prestado as int,
                tipo_interes_anual as int,
                meses as int,
                fecha_primera_cuota,
                meses_hasta_primera_revision as int,
                intervalo_revisiones as int,
                incremento_euribor as int,
                i_min as int,
                i_max as int,
            ) is Some,
            r is Ok ==> {
                let h = r->Ok_0;
                &&& h.nombre_operacion == nombre_operacion
                &&& h.fecha_escritura == fecha_escritura
                &&& h.fecha_primera_cuota == fecha_primera_cuota
                &&& h.capital_prestado == capital_prestado
                &&& h.tipo_interes_anual == tipo_interes_anual
                &&& h.meses == meses
                &&& h.meses_hasta_primera_revision == meses_hasta_primera_revision
                &&& h.intervalo_revisiones == intervalo_revisiones
                &&& h.incremento_euribor == incremento_euribor
                &&& h.i_min == i_min
                &&& h.i_max == i_max
                &&& h.fecha_impago == fecha_impago
                &&& h.fecha_resolucion == fecha_resolucion
                &&& h.novaciones@ == Seq::<Novacion>::empty()
                &&& h.parametros_contrato_validos()
                &&& h.fechas_revisiones@ == fechas_revisiones_modelo(
                    fecha_primera_cuota,
                    meses_hasta_primera_revision as int,
                    intervalo_revisiones as int,
                    spec_suma_n_meses(fecha_primera_cuota, meses - 1),
                )
                &&& h.tabla_amort_sin_actualizacion@ == cuadro_modelo(
                    capital_prestado as int,
                    tipo_interes_anual as int,
                    meses as int,
                    fecha_primera_cuota,
                )
                &&& Some(h.tabla_amort_con_actualizacion_euribor@) == h.cuadro_euribor_spec()
                &&& h.tabla_amort_impago@ == Seq::<Fila>::empty()
            },
    {
        let mut h = Hipoteca {
            nombre_operacion,
            fecha_escritura,
            fecha_primera_cuota,
            capital_prestado,
            tipo_interes_anual,
            meses,
            meses_hasta_primera_revision,
            intervalo_revisiones,
            incremento_euribor,
            fechas_revisiones: Vec::<Fecha>::new(),
            i_min,
            i_max,
            fecha_impago,
            fecha_resolucion,
            novaciones: Vec::<Novacion>::new(),
            tabla_amort_sin_actualizacion: TablaAmortizacion::new(),
            tabla_amort_con_actualizacion_euribor: TablaAmortizacion::new(),
            tabla_amort_impago: TablaAmortizacion::new(),
        };
        if !h.comprueba_contrato() {
            return Err(ErrorHipoteca::InvalidLoanParameters);
        }
        let tabla_euribor = match h.calcula_tabla_amort_con_actualizacion_euribor() {
            Ok(tabla) => tabla,
            Err(e) => {
                return Err(e);
            },
        };
        h.tabla_amort_con_actualizacion_euribor = tabla_euribor;
        let tabla_inicial = match h.calcula_tabla_amort_sin_actualizacion() {
            Ok(tabla) => tabla,
            Err(e) => {
                return Err(e);
            },
        };
        h.tabla_amort_sin_actualizacion = tabla_inicial;
        Ok(h)
    }

    /// Comprobación ejecutable de `parametros_contrato_validos`.
    fn comprueba_contrato(&self) -> (r: bool)
        ensures
            r == self.parametros_contrato_validos(),
    {
        if !self.fecha_escritura.es_valida() || !self.fecha_primera_cuota.es_valida() {
            return false;
        }
        if !(self.fecha_primera_cuota.agno > 2004 || (self.fecha_primera_cuota.agno == 2004
            && self.fecha_primera_cuota.mes >= 2)) {
            return false;
        }
        if self.meses < 1 || self.meses_hasta_primera_revision < 0 || self.intervalo_revisiones < 1 {
            return false;
        }
        if (self.fecha_primera_cuota.agno as i64) + (self.meses as i64) + (
        self.meses_hasta_primera_revision as i64) + (self.intervalo_revisiones as i64) > (MAX_AGNO
            as i64) {
            return false;
        }
        match self.fecha_impago {
            Some(f) => {
                if !f.es_valida() {
                    return false;
                }
                if self.fecha_resolucion.is_none() {
                    return false;
                }
            },
            None => {},
        }
        match self.fecha_resolucion {
            Some(f) => {
                if !f.es_valida() {
                    return false;
                }
            },
            None => {},
        }
        true
    }

    /// La fecha del último vencimiento: la primera cuota más `meses - 1`
    /// meses.
    pub fn fecha_ultimo_vencimiento(&self) -> (r: Fecha)
        requires
            self.parametros_contrato_validos(),
        ensures
            r == self.fecha_ultimo_vencimiento_spec(),
            r.valida(),
    {
        add_n_months(self.fecha_primera_cuota, self.meses - 1)
    }

    /// Recalcula la lista de fechas de revisión a partir de los parámetros
    /// del contrato; no toca ningún otro campo.
    pub fn calcula_fechas_revisiones(&mut self)
        requires
            old(self).parametros_contrato_validos(),
        ensures
            *final(self) == (Hipoteca {
                fechas_revisiones: final(self).fechas_revisiones,
                ..*old(self)
            }),
            final(self).fechas_revisiones@ == old(self).fechas_revisiones_spec(),
    {
        let ultimo = self.fecha_ultimo_vencimiento();
        let primera_revision = add_n_months(
            self.fecha_primera_cuota,
            self.meses_hasta_primera_revision,
        );
        proof {
            lemma_suma_n_meses(self.fecha_primera_cuota, self.meses as int - 1);
            lemma_suma_n_meses(
                self.fecha_primera_cuota,
                self.meses_hasta_primera_revision as int,
            );
            lemma_suma_n_meses(primera_revision, self.intervalo_revisiones as int);
        }
        let mut fechas: Vec<Fecha> = Vec::new();
        fechas.push(primera_revision);
        proof {
            assert(fechas@ =~= seq![primera_revision]);
        }
        let mut fecha_revision = add_n_months(primera_revision, self.intervalo_revisiones);
        while fecha_revision.es_anterior_o_igual(&ultimo)
            invariant
                old(self).parametros_contrato_validos(),
                *self == *old(self),
                ultimo == old(self).fecha_ultimo_vencimiento_spec(),
                ultimo.valida(),
                ultimo.agno + self.intervalo_revisiones <= MAX_AGNO as int,
                fecha_revision.valida(),
                fechas@.len() >= 1,
                old(self).fechas_revisiones_spec() == fechas@ + fechas_siguientes(
                    fecha_revision,
                    self.intervalo_revisiones as int,
                    ultimo,
                ),
            decreases medida_hasta(fecha_revision, ultimo),
        {
            proof {
                lemma_orden_num(fecha_revision, ultimo);
                lemma_suma_n_meses(fecha_revision, self.intervalo_revisiones as int);
                let siguiente = spec_suma_n_meses(
                    fecha_revision,
                    self.intervalo_revisiones as int,
                );
                lemma_orden_num(siguiente, ultimo);
                assert(fechas_siguientes(
                    fecha_revision,
                    self.intervalo_revisiones as int,
                    ultimo,
                ) == seq![fecha_revision] + fechas_siguientes(
                    siguiente,
                    self.intervalo_revisiones as int,
                    ultimo,
                ));
                assert(fechas@ + (seq![fecha_revision] + fechas_siguientes(
                    siguiente,
                    self.intervalo_revisiones as int,
                    ultimo,
                )) =~= fechas@.push(fecha_revision) + fechas_siguientes(
                    siguiente,
                    self.intervalo_revisiones as int,
                    ultimo,
                ));
            }
            fechas.push(fecha_revision);
            fecha_revision = add_n_months(fecha_revision, self.intervalo_revisiones);
        }
        proof {
            assert(fechas_siguientes(fecha_revision, self.intervalo_revisiones as int, ultimo)
                =~= Seq::<Fecha>::empty());
            assert(fechas@ + Seq::<Fecha>::empty() =~= fechas@);
        }
        self.fechas_revisiones = fechas;
    }

    /// El cuadro de amortización con los datos iniciales de la hipoteca,
    /// sin ninguna actualización del tipo de interés.
    pub fn calcula_tabla_amort_sin_actualizacion(&self) -> (r: Result<
        TablaAmortizacion,
        ErrorHipoteca,
    >)
        ensures
            r is Ok <==> parametros_validos(
                self.capital_prestado as int,
                self.tipo_interes_anual as int,
                self.meses as int,
                self.fecha_primera_cuota,
            ),
            r is Ok ==> r->Ok_0@ == cuadro_modelo(
                self.capital_prestado as int,
                self.tipo_interes_anual as int,
                self.meses as int,
                self.fecha_primera_cuota,
            ),
    {
        calcula_tabla_amortizacion(
            self.capital_prestado,
            self.tipo_interes_anual,
            self.meses,
            self.fecha_primera_cuota,
        )
    }

    /// Calcula el cuadro de amortización aplicando en cada fecha de
    /// revisión la actualización del euríbor; recalcula antes la lista de
    /// fechas de revisión.
    pub fn calcula_tabla_amort_con_actualizacion_euribor(&mut self) -> (r: Result<
        TablaAmortizacion,
        ErrorHipoteca,
    >)
        requires
            old(self).parametros_contrato_validos(),
        ensures
            *final(self) == (Hipoteca {
                fechas_revisiones: final(self).fechas_revisiones,
                ..*old(self)
            }),
            final(self).fechas_revisiones@ == old(self).fechas_revisiones_spec(),
            r is Ok <==> old(self).cuadro_euribor_spec() is Some,
            r is Ok ==> Some(r->Ok_0@) == old(self).cuadro_euribor_spec(),
    {
        self.calcula_fechas_revisiones();
        let mut tabla = match self.calcula_tabla_amort_sin_actualizacion() {
            Ok(tabla) => tabla,
            Err(e) => {
                return Err(e);
            },
        };
        let ghost fechas_todas = old(self).fechas_revisiones_spec();
        let ghost incremento_g = self.incremento_euribor as int;
        let ghost i_min_g = self.i_min as int;
        let ghost i_max_g = self.i_max as int;
        proof {
            old(self).lemma_fechas_revisiones_en_rango();
            assert(fechas_todas.skip(0) =~= fechas_todas);
        }
        let mut i: usize = 0;
        while i < self.fechas_revisiones.len()
            invariant
                0 <= i <= self.fechas_revisiones.len(),
                *self == (Hipoteca { fechas_revisiones: self.fechas_revisiones, ..*old(self) }),
                self.fechas_revisiones@ == fechas_todas,
                fechas_todas == old(self).fechas_revisiones_spec(),
                incremento_g == self.incremento_euribor as int,
                i_min_g == self.i_min as int,
                i_max_g == self.i_max as int,
                forall|j: int|
                    0 <= j < fechas_todas.len() ==> (#[trigger] fechas_todas[j]).valida()
                        && fecha_en_rango_euribor(fechas_todas[j]),
                cuadro_revisado_modelo(
                    cuadro_modelo(
                        old(self).capital_prestado as int,
                        old(self).tipo_interes_anual as int,
                        old(self).meses as int,
                        old(self).fecha_primera_cuota,
                    ),
                    fechas_todas,
                    incremento_g,
                    i_min_g,
                    i_max_g,
                ) == cuadro_revisado_modelo(
                    tabla@,
                    fechas_todas.skip(i as int),
                    incremento_g,
                    i_min_g,
                    i_max_g,
                ),
            decreases self.fechas_revisiones@.len() - i,
        {
            let fecha = self.fechas_revisiones[i];
            proof {
                assert(fechas_todas.skip(i as int)[0] == fechas_todas[i as int]);
                assert(fechas_todas.skip(i as int).drop_first() =~= fechas_todas.skip(i + 1));
            }
            let resultado = tabla.actualiza_euribor(
                fecha,
                self.incremento_euribor,
                self.i_min,
                self.i_max,
            );
            tabla = match resultado {
                Ok(tabla_nueva) => tabla_nueva,
                Err(e) => {
                    return Err(e);
                },
            };
            i = i + 1;
        }
        proof {
            assert(fechas_todas.skip(fechas_todas.len() as int) =~= Seq::<Fecha>::empty());
        }
        Ok(tabla)
    }

    /// Todas las fechas de revisión del modelo son válidas y caen dentro
    /// del rango con datos del euríbor.
    proof fn lemma_fechas_revisiones_en_rango(self)
        requires
            self.parametros_contrato_validos(),
        ensures
            forall|j: int|
                0 <= j < self.fechas_revisiones_spec().len() ==> (
                #[trigger] self.fechas_revisiones_spec()[j]).valida() && fecha_en_rango_euribor(
                    self.fechas_revisiones_spec()[j],
                ),
    {
        let primera = self.fecha_primera_cuota;
        let mh = self.meses_hasta_primera_revision as int;
        let iv = self.intervalo_revisiones as int;
        let ultimo = self.fecha_ultimo_vencimiento_spec();
        let primera_revision = spec_suma_n_meses(primera, mh);
        let arranque = spec_suma_n_meses(primera_revision, iv);
        lemma_suma_n_meses(primera, self.meses as int - 1);
        lemma_suma_n_meses(primera, mh);
        lemma_suma_n_meses(primera_revision, iv);
        lemma_fechas_siguientes_validas(arranque, iv, ultimo);
        let todas = self.fechas_revisiones_spec();
        let resto = fechas_siguientes(arranque, iv, ultimo);
        assert forall|j: int| 0 <= j < todas.len() implies (#[trigger] todas[j]).valida()
            && fecha_en_rango_euribor(todas[j]) by {
            if j == 0 {
                assert(todas[0] == primera_revision);
            } else {
                assert(todas[j] == resto[j - 1]);
                assert(resto[j - 1].agno * 12 + resto[j - 1].mes >= arranque.agno * 12
                    + arranque.mes);
            }
        }
    }

    /// Las novaciones deben recalcular el cuadro a partir de la primera
    /// cuota afectada; la regla exacta de ese recálculo está aún por
    /// fijar, así que de momento la operación no transforma nada. La
    /// localización de la cuota afectada está en
    /// `indice_primera_cuota_novada`.
    pub fn calcula_novaciones(&mut self)
        ensures
            *final(self) == *old(self),
    {
        if self.novaciones.len() > 0 {
        }
    }

    /// El índice de la primera cuota del cuadro revisado con vencimiento
    /// estrictamente posterior a la fecha de la novación, si existe.
    pub fn indice_primera_cuota_novada(&self, novacion: &Novacion) -> (r: Option<usize>)
        ensures
            match r {
                Some(indice) => 0 <= indice
                    < self.tabla_amort_con_actualizacion_euribor@.len() && fecha_lt(
                    novacion.fecha_novacion,
                    self.tabla_amort_con_actualizacion_euribor@[indice as int].fecha,
                ) && forall|j: int|
                    0 <= j < indice ==> !fecha_lt(
                        novacion.fecha_novacion,
                        #[trigger] self.tabla_amort_con_actualizacion_euribor@[j].fecha,
                    ),
                None => forall|j: int|
                    0 <= j < self.tabla_amort_con_actualizacion_euribor@.len() ==> !fecha_lt(
                        novacion.fecha_novacion,
                        #[trigger] self.tabla_amort_con_actualizacion_euribor@[j].fecha,
                    ),
            },
    {
        let tabla = &self.tabla_amort_con_actualizacion_euribor;
        let mut i: usize = 0;
        while i < tabla.cuotas.len()
            invariant
                0 <= i <= tabla.cuotas.len(),
                tabla@.len() == tabla.cuotas.len(),
                tabla == &self.tabla_amort_con_actualizacion_euribor,
                forall|j: int|
                    0 <= j < i ==> !fecha_lt(
                        novacion.fecha_novacion,
                        #[trigger] tabla@[j].fecha,
                    ),
            decreases tabla.cuotas.len() - i,
        {
            if novacion.fecha_novacion.es_anterior(&tabla.cuotas[i].fecha) {
                return Some(i);
            }
            i = i + 1;
        }
        None
    }

    /// El cuadro del impago: las cuotas del cuadro revisado con
    /// vencimiento dentro de la ventana `[impago, resolucion]`, más, si la
    /// última queda estrictamente antes de la resolución, una cuota
    /// sintética de liquidación con interés simple diario (actual/365)
    /// hasta la fecha de resolución. Sin fecha de impago el cuadro es
    /// vacío; una ventana sin cuotas es `EmptyDefaultWindow`.
    pub fn calcula_tabla_impago(&self) -> (r: Result<TablaAmortizacion, ErrorHipoteca>)
        requires
            self.fecha_impago is Some ==> self.fecha_resolucion is Some
                && self.fecha_resolucion->0.valida(),
        ensures
            self.fecha_impago is None ==> r is Ok && r->Ok_0@ == Seq::<Fila>::empty(),
            self.fecha_impago is Some ==> {
                let impago = self.fecha_impago->0;
                let resolucion = self.fecha_resolucion->0;
                let ventana = filtra(
                    self.tabla_amort_con_actualizacion_euribor@,
                    |f: Fila| en_ventana(f, impago, resolucion),
                );
                if ventana.len() == 0 {
                    r == Err::<TablaAmortizacion, ErrorHipoteca>(ErrorHipoteca::EmptyDefaultWindow)
                } else {
                    let ultima = ventana[ventana.len() - 1];
                    if !fecha_lt(ultima.fecha, resolucion) {
                        r is Ok && r->Ok_0@ == ventana
                    } else if liquidacion_representable(ultima, resolucion) {
                        r is Ok && r->Ok_0@ == ventana.push(fila_liquidacion(ultima, resolucion))
                    } else {
                        r == Err::<TablaAmortizacion, ErrorHipoteca>(
                            ErrorHipoteca::InvalidLoanParameters,
                        )
                    }
                }
            },
    {
        let mut t = TablaAmortizacion::new();
        let impago = match self.fecha_impago {
            Some(f) => f,
            None => {
                return Ok(t);
            },
        };
        let resolucion = match self.fecha_resolucion {
            Some(f) => f,
            None => {
                return Err(ErrorHipoteca::InvalidLoanParameters);
            },
        };
        let tabla = &self.tabla_amort_con_actualizacion_euribor;
        let mut i: usize = 0;
        while i < tabla.cuotas.len()
            invariant
                0 <= i <= tabla.cuotas.len(),
                tabla == &self.tabla_amort_con_actualizacion_euribor,
                tabla@.len() == tabla.cuotas.len(),
                t@ == filtra(
                    tabla@.subrange(0, i as int),
                    |f: Fila| en_ventana(f, impago, resolucion),
                ),
            decreases tabla.cuotas.len() - i,
        {
            proof {
                lemma_filtra_tramo(tabla@, i as int, |f: Fila| en_ventana(f, impago, resolucion));
            }
            let cuota = tabla.cuotas[i];
            if impago.es_anterior_o_igual(&cuota.fecha) && cuota.fecha.es_anterior_o_igual(
                &resolucion,
            ) {
                t.push(cuota);
            }
            i = i + 1;
        }
        proof {
            assert(tabla@.subrange(0, tabla@.len() as int) =~= tabla@);
        }
        if t.cuotas.len() == 0 {
            return Err(ErrorHipoteca::EmptyDefaultWindow);
        }
        let ultima = t.cuotas[t.cuotas.len() - 1];
        proof {
            assert(ultima@ == t@[t@.len() - 1]);
        }
        if ultima.fecha.es_anterior(&resolucion) {
            if !ultima.fecha.es_valida() {
                return Err(ErrorHipoteca::InvalidLoanParameters);
            }
            let cap_pdte_128: i128 = (ultima.cap_pendiente_antes as i128) - (ultima.cuota_capital
                as i128);
            if cap_pdte_128 < -(MAX_IMPORTE_CENTIMOS as i128) || cap_pdte_128 > (
            MAX_IMPORTE_CENTIMOS as i128) {
                return Err(ErrorHipoteca::InvalidLoanParameters);
            }
            if ultima.i < -MAX_TIPO_E5 || ultima.i > MAX_TIPO_E5 {
                return Err(ErrorHipoteca::InvalidLoanParameters);
            }
            let dias: i64 = numero_dias_civiles(resolucion) - numero_dias_civiles(ultima.fecha);
            proof {
                assert(cap_pdte_128 * (dias as i128) <= (MAX_IMPORTE_CENTIMOS as i128) * (366 * (
                MAX_AGNO as i128)) && cap_pdte_128 * (dias as i128) >= -((MAX_IMPORTE_CENTIMOS
                    as i128) * (366 * (MAX_AGNO as i128)))) by (nonlinear_arith)
                    requires
                        -(MAX_IMPORTE_CENTIMOS as i128) <= cap_pdte_128 <= (MAX_IMPORTE_CENTIMOS
                            as i128),
                        -(366 * (MAX_AGNO as i128)) <= (dias as i128) <= 366 * (MAX_AGNO as i128),
                ;
            }
            let producto_parcial: i128 = cap_pdte_128 * (dias as i128);
            proof {
                assert(producto_parcial * (ultima.i as i128) <= ((MAX_IMPORTE_CENTIMOS as i128) * (
                366 * (MAX_AGNO as i128))) * (MAX_TIPO_E5 as i128) && producto_parcial * (ultima.i
                    as i128) >= -(((MAX_IMPORTE_CENTIMOS as i128) * (366 * (MAX_AGNO as i128))) * (
                MAX_TIPO_E5 as i128))) by (nonlinear_arith)
                    requires
                        -((MAX_IMPORTE_CENTIMOS as i128) * (366 * (MAX_AGNO as i128)))
                            <= producto_parcial <= (MAX_IMPORTE_CENTIMOS as i128) * (366 * (
                        MAX_AGNO as i128)),
                        -(MAX_TIPO_E5 as i128) <= (ultima.i as i128) <= (MAX_TIPO_E5 as i128),
                ;
            }
            let producto: i128 = producto_parcial * (ultima.i as i128);
            let interes_128: i128 = divide_redondeando(producto, DENOMINADOR_DIARIO as i128);
            if interes_128 < -(MAX_IMPORTE_CENTIMOS as i128) || interes_128 > (MAX_IMPORTE_CENTIMOS
                as i128) {
                return Err(ErrorHipoteca::InvalidLoanParameters);
            }
            let cap_pdte: i64 = cap_pdte_128 as i64;
            let intereses: i64 = interes_128 as i64;
            let cuota_total: i64 = cap_pdte + intereses;
            let cuota = Cuota::new(
                resolucion,
                ultima.i,
                ultima.meses_restantes_antes,
                cap_pdte,
                cuota_total,
                cap_pdte,
                intereses,
            );
            t.push(cuota);
        }
        Ok(t)
    }
}

} // verus!
