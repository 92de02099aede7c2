use vstd::prelude::*;

use crate::calculo::{calcula_tabla_amortizacion, cuadro_modelo, parametros_validos};
use crate::calendario::{fecha_le, fecha_lt, Fecha};
use crate::cuota::{Cuota, Fila};
use crate::errores::ErrorHipoteca;
use crate::euribor_data::{actualiza_euribor_spec, fecha_en_rango_euribor, EuriborData};

verus! {

/// Un cuadro de amortización: la sucesión de cuotas del préstamo, en orden
/// estrictamente creciente de fecha de vencimiento.
pub struct TablaAmortizacion {
    pub cuotas: Vec<Cuota>,
}

impl View for TablaAmortizacion {
    type V = Seq<Fila>;

    open spec fn view(&self) -> Seq<Fila> {
        self.cuotas@.map_values(|c: Cuota| c@)
    }
}

/// Las filas que cumplen el predicado, en su orden original.
pub open spec fn filtra(s: Seq<Fila>, pred: spec_fn(Fila) -> bool) -> Seq<Fila>
    decreases s.len(),
{
    if s.len() == 0 {
        Seq::<Fila>::empty()
    } else {
        let resto = filtra(s.drop_first(), pred);
        if pred(s[0]) {
            seq![s[0]] + resto
        } else {
            resto
        }
    }
}

/// Las fechas de las filas crecen estrictamente: sin duplicados y en orden.
pub open spec fn fechas_ordenadas(s: Seq<Fila>) -> bool {
    forall|i: int, j: int|
        0 <= i < j < s.len() ==> fecha_lt(#[trigger] s[i].fecha, #[trigger] s[j].fecha)
}

/// Añadir un elemento por el final y filtrar es filtrar y, si el elemento
/// cumple el predicado, añadirlo por el final.
pub(crate) proof fn lemma_filtra_push(s: Seq<Fila>, x: Fila, pred: spec_fn(Fila) -> bool)
    ensures
        pred(x) ==> filtra(s.push(x), pred) == filtra(s, pred).push(x),
        !pred(x) ==> filtra(s.push(x), pred) == filtra(s, pred),
    decreases s.len(),
{
    if s.len() == 0 {
        assert(s.push(x).drop_first() =~= s);
        assert(s.push(x)[0] == x);
        if pred(x) {
            assert(filtra(s.push(x), pred) =~= filtra(s, pred).push(x));
        } else {
            assert(filtra(s.push(x), pred) =~= filtra(s, pred));
        }
    } else {
        let ampliada = s.push(x);
        assert(ampliada.drop_first() =~= s.drop_first().push(x));
        assert(ampliada[0] == s[0]);
        lemma_filtra_push(s.drop_first(), x, pred);
        if pred(x) {
            if pred(s[0]) {
                assert(seq![s[0]] + filtra(s.drop_first(), pred).push(x) =~= (seq![s[0]] + filtra(
                    s.drop_first(),
                    pred,
                )).push(x));
            }
        }
    }
}

/// Tramo inicial de longitud `i + 1`: el tramo de longitud `i` más el
/// elemento `s[i]` por el final.
pub(crate) proof fn lemma_filtra_tramo(s: Seq<Fila>, i: int, pred: spec_fn(Fila) -> bool)
    requires
        0 <= i < s.len(),
    ensures
        pred(s[i]) ==> filtra(s.subrange(0, i + 1), pred) == filtra(s.subrange(0, i), pred).push(
            s[i],
        ),
        !pred(s[i]) ==> filtra(s.subrange(0, i + 1), pred) == filtra(s.subrange(0, i), pred),
{
    assert(s.subrange(0, i + 1) =~= s.subrange(0, i).push(s[i]));
    lemma_filtra_push(s.subrange(0, i), s[i], pred);
}

/// Todos los elementos del resultado de un filtro cumplen el predicado.
pub(crate) proof fn lemma_filtra_cumplen(s: Seq<Fila>, pred: spec_fn(Fila) -> bool)
    ensures
        forall|k: int|
            0 <= k < filtra(s, pred).len() ==> pred(#[trigger] filtra(s, pred)[k]),
    decreases s.len(),
{
    if s.len() > 0 {
        lemma_filtra_cumplen(s.drop_first(), pred);
        let filtrada = filtra(s, pred);
        let resto = filtra(s.drop_first(), pred);
        assert forall|k: int| 0 <= k < filtrada.len() implies pred(#[trigger] filtrada[k]) by {
            if pred(s[0]) {
                if k > 0 {
                    assert(filtrada[k] == resto[k - 1]);
                }
            } else {
                assert(filtrada[k] == resto[k]);
            }
        }
    }
}

/// Filtrar una sucesión de fechas estrictamente crecientes conserva el
/// orden estricto, y ningún elemento del resultado queda antes del primero
/// de la sucesión.
pub(crate) proof fn lemma_filtra_ordenada(s: Seq<Fila>, pred: spec_fn(Fila) -> bool)
    requires
        fechas_ordenadas(s),
    ensures
        fechas_ordenadas(filtra(s, pred)),
        forall|k: int|
            0 <= k < filtra(s, pred).len() ==> s.len() > 0 && fecha_le(
                s[0].fecha,
                (#[trigger] filtra(s, pred)[k]).fecha,
            ),
    decreases s.len(),
{
    if s.len() > 0 {
        let resto = s.drop_first();
        assert(fechas_ordenadas(resto)) by {
            assert forall|i: int, j: int| 0 <= i < j < resto.len() implies fecha_lt(
                #[trigger] resto[i].fecha,
                #[trigger] resto[j].fecha,
            ) by {
                assert(resto[i] == s[i + 1] && resto[j] == s[j + 1]);
            }
        }
        lemma_filtra_ordenada(resto, pred);
        let filtrada = filtra(s, pred);
        let filtrada_resto = filtra(resto, pred);
        if resto.len() > 0 {
            assert(fecha_lt(s[0].fecha, resto[0].fecha)) by {
                assert(resto[0] == s[1]);
            }
        }
        assert forall|k: int| 0 <= k < filtrada.len() implies fecha_le(
            s[0].fecha,
            (#[trigger] filtrada[k]).fecha,
        ) by {
            if pred(s[0]) {
                if k > 0 {
                    assert(filtrada[k] == filtrada_resto[k - 1]);
                }
            } else {
                assert(filtrada[k] == filtrada_resto[k]);
            }
        }
        assert forall|i: int, j: int| 0 <= i < j < filtrada.len() implies fecha_lt(
            #[trigger] filtrada[i].fecha,
            #[trigger] filtrada[j].fecha,
        ) by {
            if pred(s[0]) {
                assert(filtrada[j] == filtrada_resto[j - 1]);
                if i > 0 {
                    assert(filtrada[i] == filtrada_resto[i - 1]);
                }
            } else {
                assert(filtrada[i] == filtrada_resto[i] && filtrada[j] == filtrada_resto[j]);
            }
        }
    }
}

/// Un filtro que todos los elementos cumplen devuelve la sucesión intacta.
pub(crate) proof fn lemma_filtra_todo(s: Seq<Fila>, pred: spec_fn(Fila) -> bool)
    requires
        forall|i: int| 0 <= i < s.len() ==> pred(#[trigger] s[i]),
    ensures
        filtra(s, pred) == s,
    decreases s.len(),
{
    if s.len() > 0 {
        lemma_filtra_todo(s.drop_first(), pred);
        assert(seq![s[0]] + s.drop_first() =~= s);
    }
}

/// Un filtro que ningún elemento cumple devuelve la sucesión vacía.
pub(crate) proof fn lemma_filtra_nada(s: Seq<Fila>, pred: spec_fn(Fila) -> bool)
    requires
        forall|i: int| 0 <= i < s.len() ==> !pred(#[trigger] s[i]),
    ensures
        filtra(s, pred) == Seq::<Fila>::empty(),
    decreases s.len(),
{
    if s.len() > 0 {
        lemma_filtra_nada(s.drop_first(), pred);
    }
}

impl Clone for TablaAmortizacion {
    /// Copia el cuadro, cuota a cuota.
    fn clone(&self) -> (r: Self)
        ensures
            r@ == self@,
    {
        let mut cuotas: Vec<Cuota> = Vec::new();
        let mut i: usize = 0;
        while i < self.cuotas.len()
            invariant
                0 <= i <= self.cuotas.len(),
                cuotas@ == self.cuotas@.subrange(0, i as int),
            decreases self.cuotas.len() - i,
        {
            cuotas.push(self.cuotas[i]);
            proof {
                assert(self.cuotas@.subrange(0, i + 1) =~= self.cuotas@.subrange(0, i as int).push(
                    self.cuotas@[i as int],
                ));
            }
            i = i + 1;
        }
        proof {
            assert(self.cuotas@.subrange(0, self.cuotas@.len() as int) =~= self.cuotas@);
            assert(cuotas@.map_values(|c: Cuota| c@) =~= self@);
        }
        TablaAmortizacion { cuotas }
    }
}

impl TablaAmortizacion {
    /// Un cuadro vacío.
    pub fn new() -> (r: Self)
        ensures
            r@ == Seq::<Fila>::empty(),
            r.cuotas@.len() == 0,
    {
        let r = TablaAmortizacion { cuotas: Vec::<Cuota>::new() };
        proof {
            assert(r@ =~= Seq::<Fila>::empty());
        }
        r
    }

    /// Número de cuotas del cuadro.
    pub fn len(&self) -> (r: usize)
        ensures
            r == self@.len(),
    {
        self.cuotas.len()
    }

    /// Añade una cuota al final del cuadro.
    pub fn push(&mut self, cuota: Cuota)
        ensures
            final(self)@ == old(self)@.push(cuota@),
    {
        self.cuotas.push(cuota);
        proof {
            assert(self@ =~= old(self)@.push(cuota@));
        }
    }

    /// Añade al final todas las cuotas de otro cuadro, en su orden.
    pub fn push_tabla(&mut self, tabla: &TablaAmortizacion)
        ensures
            final(self)@ == old(self)@ + tabla@,
    {
        let mut i: usize = 0;
        while i < tabla.cuotas.len()
            invariant
                0 <= i <= tabla.cuotas.len(),
                tabla@.len() == tabla.cuotas.len(),
                self@ == old(self)@ + tabla@.subrange(0, i as int),
            decreases tabla.cuotas.len() - i,
        {
            proof {
                assert(tabla@[i as int] == tabla.cuotas@[i as int]@);
                assert(tabla@.subrange(0, i + 1) =~= tabla@.subrange(0, i as int).push(
                    tabla@[i as int],
                ));
                assert((old(self)@ + tabla@.subrange(0, i as int)).push(tabla@[i as int]) =~= old(
                    self,
                )@ + tabla@.subrange(0, i + 1));
            }
            self.push(tabla.cuotas[i]);
            i = i + 1;
        }
        proof {
            assert(tabla@.subrange(0, tabla@.len() as int) =~= tabla@);
        }
    }

    /// Las cuotas con fecha de vencimiento anterior o igual a la dada.
    pub fn tabla_hasta_fecha_incluida(&self, fecha: Fecha) -> (r: TablaAmortizacion)
        ensures
            r@ == filtra(self@, |f: Fila| fecha_le(f.fecha, fecha)),
    {
        let mut tabla_result = TablaAmortizacion::new();
        let mut i: usize = 0;
        while i < self.cuotas.len()
            invariant
                0 <= i <= self.cuotas.len(),
                self@.len() == self.cuotas.len(),
                tabla_result@ == filtra(
                    self@.subrange(0, i as int),
                    |f: Fila| fecha_le(f.fecha, fecha),
                ),
            decreases self.cuotas.len() - i,
        {
            proof {
                lemma_filtra_tramo(self@, i as int, |f: Fila| fecha_le(f.fecha, fecha));
            }
            let cuota = self.cuotas[i];
            if cuota.fecha.es_anterior_o_igual(&fecha) {
                tabla_result.push(cuota);
            }
            i = i + 1;
        }
        proof {
            assert(self@.subrange(0, self@.len() as int) =~= self@);
        }
        tabla_result
    }

    /// Las cuotas con fecha de vencimiento estrictamente anterior a la dada.
    pub fn tabla_hasta_fecha_excluida(&self, fecha: Fecha) -> (r: TablaAmortizacion)
        ensures
            r@ == filtra(self@, |f: Fila| fecha_lt(f.fecha, fecha)),
    {
        let mut tabla_result = TablaAmortizacion::new();
        let mut i: usize = 0;
        while i < self.cuotas.len()
            invariant
                0 <= i <= self.cuotas.len(),
                self@.len() == self.cuotas.len(),
                tabla_result@ == filtra(
                    self@.subrange(0, i as int),
                    |f: Fila| fecha_lt(f.fecha, fecha),
                ),
            decreases self.cuotas.len() - i,
        {
            proof {
                lemma_filtra_tramo(self@, i as int, |f: Fila| fecha_lt(f.fecha, fecha));
            }
            let cuota = self.cuotas[i];
            if cuota.fecha.es_anterior(&fecha) {
                tabla_result.push(cuota);
            }
            i = i + 1;
        }
        proof {
            assert(self@.subrange(0, self@.len() as int) =~= self@);
        }
        tabla_result
    }

    /// Las cuotas con fecha de vencimiento igual o posterior a la dada.
    pub fn tabla_desde_fecha_incluida(&self, fecha: Fecha) -> (r: TablaAmortizacion)
        ensures
            r@ == filtra(self@, |f: Fila| !fecha_lt(f.fecha, fecha)),
    {
        let mut tabla_result = TablaAmortizacion::new();
        let mut i: usize = 0;
        while i < self.cuotas.len()
            invariant
                0 <= i <= self.cuotas.len(),
                self@.len() == self.cuotas.len(),
                tabla_result@ == filtra(
                    self@.subrange(0, i as int),
                    |f: Fila| !fecha_lt(f.fecha, fecha),
                ),
            decreases self.cuotas.len() - i,
        {
            proof {
                lemma_filtra_tramo(self@, i as int, |f: Fila| !fecha_lt(f.fecha, fecha));
            }
            let cuota = self.cuotas[i];
            if !cuota.fecha.es_anterior(&fecha) {
                tabla_result.push(cuota);
            }
            i = i + 1;
        }
        proof {
            assert(self@.subrange(0, self@.len() as int) =~= self@);
        }
        tabla_result
    }

    /// Las cuotas con fecha de vencimiento estrictamente posterior a la dada.
    pub fn tabla_desde_fecha_excluida(&self, fecha: Fecha) -> (r: TablaAmortizacion)
        ensures
            r@ == filtra(self@, |f: Fila| !fecha_le(f.fecha, fecha)),
    {
        let mut tabla_result = TablaAmortizacion::new();
        let mut i: usize = 0;
        while i < self.cuotas.len()
            invariant
                0 <= i <= self.cuotas.len(),
                self@.len() == self.cuotas.len(),
                tabla_result@ == filtra(
                    self@.subrange(0, i as int),
                    |f: Fila| !fecha_le(f.fecha, fecha),
                ),
            decreases self.cuotas.len() - i,
        {
            proof {
                lemma_filtra_tramo(self@, i as int, |f: Fila| !fecha_le(f.fecha, fecha));
            }
            let cuota = self.cuotas[i];
            if !cuota.fecha.es_anterior_o_igual(&fecha) {
                tabla_result.push(cuota);
            }
            i = i + 1;
        }
        proof {
            assert(self@.subrange(0, self@.len() as int) =~= self@);
        }
        tabla_result
    }
}

/// El tramo del cuadro que se conserva en una revisión: las cuotas con
/// vencimiento anterior a la fecha de revisión.
pub open spec fn tramo_anterior(t: Seq<Fila>, fecha: Fecha) -> Seq<Fila> {
    filtra(t, |f: Fila| fecha_lt(f.fecha, fecha))
}

/// El tramo del cuadro que se descarta y reconstruye en una revisión: las
/// cuotas con vencimiento en la fecha de revisión o después.
pub open spec fn tramo_posterior(t: Seq<Fila>, fecha: Fecha) -> Seq<Fila> {
    filtra(t, |f: Fila| !fecha_lt(f.fecha, fecha))
}

/// Una revisión sobre el cuadro tiene éxito si no alcanza a ninguna cuota
/// o si el generador acepta los datos de la primera cuota alcanzada.
pub open spec fn paso_revision_valido(t: Seq<Fila>, fecha: Fecha, tipo_nuevo: int) -> bool {
    let despues = tramo_posterior(t, fecha);
    despues.len() == 0 || parametros_validos(
        despues[0].cap_pendiente_antes,
        tipo_nuevo,
        despues[0].meses_restantes_antes,
        despues[0].fecha,
    )
}

/// El cuadro tras una revisión de tipo en la fecha dada: el tramo anterior
/// se conserva y el resto de la vida del préstamo se reconstruye entero
/// con el tipo nuevo, partiendo del saldo, plazo y fecha de la primera
/// cuota alcanzada. Si la revisión no alcanza a ninguna cuota, el cuadro
/// queda igual.
pub open spec fn aplica_revision(t: Seq<Fila>, fecha: Fecha, tipo_nuevo: int) -> Seq<Fila> {
    let despues = tramo_posterior(t, fecha);
    if despues.len() == 0 {
        t
    } else {
        tramo_anterior(t, fecha) + cuadro_modelo(
            despues[0].cap_pendiente_antes,
            tipo_nuevo,
            despues[0].meses_restantes_antes,
            despues[0].fecha,
        )
    }
}

impl TablaAmortizacion {
    /// Aplica al cuadro la revisión contractual del tipo en la fecha dada:
    /// busca el euríbor del cierre del mes anterior, le suma el
    /// diferencial, lo acota entre el suelo y el techo, y reconstruye con
    /// ese tipo todas las cuotas desde la fecha de revisión en adelante.
    pub fn actualiza_euribor(&self, fecha: Fecha, incremento: i64, i_min: i64, i_max: i64) -> (r:
        Result<TablaAmortizacion, ErrorHipoteca>)
        requires
            fecha.valida(),
            fecha_en_rango_euribor(fecha),
        ensures
            r is Ok <==> paso_revision_valido(
                self@,
                fecha,
                actualiza_euribor_spec(fecha, incremento as int, i_min as int, i_max as int),
            ),
            r is Ok ==> r->Ok_0@ == aplica_revision(
                self@,
                fecha,
                actualiza_euribor_spec(fecha, incremento as int, i_min as int, i_max as int),
            ),
    {
        let ed = EuriborData::new();
        let tipo_actualizado = ed.actualiza_euribor(fecha, incremento, i_min, i_max);
        let tabla_antes = self.tabla_hasta_fecha_excluida(fecha);
        let tabla_despues = self.tabla_desde_fecha_incluida(fecha);
        if tabla_despues.len() == 0 {
            return Ok(self.clone());
        }
        let primera = tabla_despues.cuotas[0];
        proof {
            assert(primera@ == tramo_posterior(self@, fecha)[0]);
        }
        let reconstruida = match calcula_tabla_amortizacion(
            primera.cap_pendiente_antes,
            tipo_actualizado,
            primera.meses_restantes_antes,
            primera.fecha,
        ) {
            Ok(tabla) => tabla,
            Err(e) => {
                return Err(e);
            },
        };
        let mut tabla_actualizada = TablaAmortizacion::new();
        tabla_actualizada.push_tabla(&tabla_antes);
        tabla_actualizada.push_tabla(&reconstruida);
        proof {
            assert(tabla_actualizada@ =~= tabla_antes@ + reconstruida@);
        }
        Ok(tabla_actualizada)
    }
}

/// Una revisión que tiene éxito conserva el invariante del cuadro: las
/// fechas de vencimiento siguen creciendo estrictamente tras el empalme.
pub proof fn lemma_revision_ordenada(t: Seq<Fila>, fecha: Fecha, tipo_nuevo: int)
    requires
        fechas_ordenadas(t),
        paso_revision_valido(t, fecha, tipo_nuevo),
    ensures
        fechas_ordenadas(aplica_revision(t, fecha, tipo_nuevo)),
{
    let cumple_antes = |f: Fila| fecha_lt(f.fecha, fecha);
    let cumple_despues = |f: Fila| !fecha_lt(f.fecha, fecha);
    let antes = tramo_anterior(t, fecha);
    let despues = tramo_posterior(t, fecha);
    if despues.len() > 0 {
        let c0 = despues[0];
        let reconstruido = cuadro_modelo(
            c0.cap_pendiente_antes,
            tipo_nuevo,
            c0.meses_restantes_antes,
            c0.fecha,
        );
        lemma_filtra_ordenada(t, cumple_antes);
        lemma_filtra_cumplen(t, cumple_antes);
        lemma_filtra_cumplen(t, cumple_despues);
        crate::calculo::lemma_cuadro_fechas_crecientes(
            c0.cap_pendiente_antes,
            tipo_nuevo,
            c0.meses_restantes_antes,
            c0.fecha,
        );
        crate::calculo::lemma_cuadro_frances(
            c0.cap_pendiente_antes,
            tipo_nuevo,
            c0.meses_restantes_antes,
            c0.fecha,
        );
        let resultado = antes + reconstruido;
        assert forall|i: int, j: int| 0 <= i < j < resultado.len() implies fecha_lt(
            #[trigger] resultado[i].fecha,
            #[trigger] resultado[j].fecha,
        ) by {
            if j >= antes.len() {
                let ja = j - antes.len();
                let fj = resultado[j].fecha;
                assert(fj == crate::calendario::spec_suma_n_meses(c0.fecha, ja));
                crate::calendario::lemma_suma_n_meses(c0.fecha, ja);
                assert(fecha_le(c0.fecha, fj)) by {
                    if fecha_lt(fj, c0.fecha) {
                        crate::calendario::lemma_orden_num(fj, c0.fecha);
                    }
                }
                if i < antes.len() {
                    assert(fecha_lt(resultado[i].fecha, fecha));
                    assert(!fecha_lt(c0.fecha, fecha));
                }
            }
        }
    }
}

/// Partir un cuadro de fechas estrictamente crecientes por una fecha
/// cualquiera y volver a concatenar los dos tramos (el anterior a la fecha
/// y el que empieza en ella) reconstruye el cuadro exactamente.
pub proof fn lemma_particion_por_fecha(s: Seq<Fila>, fecha: Fecha)
    requires
        fechas_ordenadas(s),
    ensures
        filtra(s, |f: Fila| fecha_lt(f.fecha, fecha)) + filtra(
            s,
            |f: Fila| !fecha_lt(f.fecha, fecha),
        ) == s,
    decreases s.len(),
{
    let antes = |f: Fila| fecha_lt(f.fecha, fecha);
    let despues = |f: Fila| !fecha_lt(f.fecha, fecha);
    if s.len() == 0 {
        assert(filtra(s, antes) + filtra(s, despues) =~= s);
    } else {
        let resto = s.drop_first();
        if fecha_lt(s[0].fecha, fecha) {
            assert(fechas_ordenadas(resto)) by {
                assert forall|i: int, j: int| 0 <= i < j < resto.len() implies fecha_lt(
                    #[trigger] resto[i].fecha,
                    #[trigger] resto[j].fecha,
                ) by {
                    assert(resto[i] == s[i + 1] && resto[j] == s[j + 1]);
                }
            }
            lemma_particion_por_fecha(resto, fecha);
            assert((seq![s[0]] + filtra(resto, antes)) + filtra(resto, despues) =~= seq![s[0]] + (
            filtra(resto, antes) + filtra(resto, despues)));
            assert(seq![s[0]] + resto =~= s);
        } else {
            assert forall|i: int| 0 <= i < resto.len() implies !antes(#[trigger] resto[i]) by {
                assert(resto[i] == s[i + 1]);
                assert(fecha_lt(s[0].fecha, s[i + 1].fecha));
            }
            lemma_filtra_nada(resto, antes);
            lemma_filtra_todo(resto, despues);
            assert(seq![s[0]] + resto =~= s);
        }
    }
}

} // verus!
