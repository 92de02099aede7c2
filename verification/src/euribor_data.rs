use vstd::prelude::*;

use crate::calendario::Fecha;
use crate::errores::ErrorHipoteca;

verus! {

/// Primer año del que la tabla histórica guarda valores.
pub const PRIMER_AGNO_EURIBOR: i32 = 2004;

/// Último año del que la tabla histórica guarda valores.
pub const ULTIMO_AGNO_EURIBOR: i32 = 2021;

/// El euríbor al cierre de cada mes de 2004 a 2021, como fracción en
/// cienmilésimas (2216 equivale al 2,216 por ciento). Una fila por año,
/// de enero a diciembre.
pub open spec fn datos_euribor() -> Seq<Seq<int>> {
    seq![
        seq![2216int, 2163, 2055, 2163, 2297, 2404, 2361, 2302, 2377, 2316, 2328, 2301],
        seq![2312int, 2310, 2335, 2265, 2193, 2103, 2168, 2223, 2220, 2414, 2684, 2783],
        seq![2833int, 2914, 3100, 2221, 2308, 3401, 3547, 3720, 3715, 3799, 3864, 3921],
        seq![4064int, 4094, 4106, 4253, 4373, 4505, 4564, 4666, 4725, 4647, 4607, 4793],
        seq![4498int, 4349, 4590, 4820, 4994, 5361, 5393, 5323, 5384, 5248, 4350, 3452],
        seq![2622int, 2135, 1909, 1771, 1644, 1610, 1412, 1334, 1261, 1243, 1231, 1242],
        seq![1232int, 1225, 1215, 1225, 1249, 1281, 1373, 1421, 1420, 1495, 1541, 1526],
        seq![1550int, 1714, 1924, 2086, 2147, 2144, 2183, 2097, 2067, 2110, 2044, 2004],
        seq![1837int, 1678, 1499, 1368, 1266, 1219, 1061, 877, 740, 650, 588, 549],
        seq![575int, 594, 545, 528, 484, 507, 525, 542, 543, 541, 506, 543],
        seq![562int, 549, 577, 604, 592, 513, 488, 469, 362, 338, 335, 329],
        seq![298int, 255, 212, 180, 165, 163, 167, 161, 154, 128, 79, 59],
        seq![42int, -8, -12, -10, -13, -28, -56, -48, -57, -69, -74, -80],
        seq![-95int, -106, -110, -119, -127, -149, -154, -156, -168, -180, -189, -190],
        seq![-189int, -191, -191, -190, -188, -181, -180, -169, -166, -154, -147, -129],
        seq![-116int, -108, -109, -112, -134, -190, -283, -356, -339, -304, -272, -261],
        seq![-253int, -288, -266, -108, -81, -147, -279, -359, -415, -466, -481, -497],
        seq![-505int, -501, -487, -484, -481, -484, -491, -498, -492, -477, -487, -502],
    ]
}

/// El euríbor del mes pedido, con la política de recorte hacia delante:
/// un año posterior al último almacenado se responde con el diciembre del
/// último año almacenado.
pub open spec fn euribor_mes_spec(mes: int, agno: int) -> int {
    if agno > ULTIMO_AGNO_EURIBOR {
        datos_euribor()[ULTIMO_AGNO_EURIBOR - PRIMER_AGNO_EURIBOR][11]
    } else {
        datos_euribor()[agno - PRIMER_AGNO_EURIBOR][mes - 1]
    }
}

/// La política de recorte hacia delante: consultar cualquier mes de un
/// año posterior al último almacenado devuelve el mismo valor que
/// consultar diciembre del último año almacenado.
pub proof fn lemma_recorte_hacia_delante(mes: int, agno: int)
    requires
        agno > ULTIMO_AGNO_EURIBOR,
    ensures
        euribor_mes_spec(mes, agno) == euribor_mes_spec(12, ULTIMO_AGNO_EURIBOR as int),
{
}

/// Las fechas cuyo mes anterior cae dentro del rango con datos (desde
/// febrero de 2004 en adelante).
pub open spec fn fecha_en_rango_euribor(f: Fecha) -> bool {
    f.agno > PRIMER_AGNO_EURIBOR || (f.agno == PRIMER_AGNO_EURIBOR && f.mes >= 2)
}

/// El euríbor correspondiente al cierre del mes anterior a la fecha.
pub open spec fn euribor_fecha_spec(f: Fecha) -> int {
    if f.mes == 1 {
        euribor_mes_spec(12, f.agno - 1)
    } else {
        euribor_mes_spec(f.mes - 1, f.agno as int)
    }
}

/// La regla contractual de revisión: índice del cierre del mes anterior
/// más el diferencial, acotado entre el suelo y el techo, en ese orden.
/// En cienmilésimas el redondeo final a cinco decimales ya es exacto.
pub open spec fn actualiza_euribor_spec(f: Fecha, incremento: int, i_min: int, i_max: int) -> int {
    let subido = euribor_fecha_spec(f) + incremento;
    let con_suelo = if subido < i_min {
        i_min
    } else {
        subido
    };
    if con_suelo > i_max {
        i_max
    } else {
        con_suelo
    }
}

/// La tabla histórica mensual del euríbor, inmutable una vez construida.
pub struct EuriborData {
    tabla: Vec<Vec<i64>>,
}

impl View for EuriborData {
    type V = Seq<Seq<int>>;

    closed spec fn view(&self) -> Seq<Seq<int>> {
        self.tabla@.map_values(|fila: Vec<i64>| fila@.map_values(|v: i64| v as int))
    }
}

impl EuriborData {
    /// La tabla contiene exactamente el conjunto de datos histórico.
    pub open spec fn valida(self) -> bool {
        self@ == datos_euribor()
    }

    /// Construye la tabla con el conjunto de datos histórico.
    pub fn new() -> (r: Self)
        ensures
            r.valida(),
    {
        let mut tabla: Vec<Vec<i64>> = Vec::new();
        let fila: Vec<i64> = vec![2216, 2163, 2055, 2163, 2297, 2404, 2361, 2302, 2377, 2316, 2328, 2301];
        tabla.push(fila);
        let fila: Vec<i64> = vec![2312, 2310, 2335, 2265, 2193, 2103, 2168, 2223, 2220, 2414, 2684, 2783];
        tabla.push(fila);
        let fila: Vec<i64> = vec![2833, 2914, 3100, 2221, 2308, 3401, 3547, 3720, 3715, 3799, 3864, 3921];
        tabla.push(fila);
        let fila: Vec<i64> = vec![4064, 4094, 4106, 4253, 4373, 4505, 4564, 4666, 4725, 4647, 4607, 4793];
        tabla.push(fila);
        let fila: Vec<i64> = vec![4498, 4349, 4590, 4820, 4994, 5361, 5393, 5323, 5384, 5248, 4350, 3452];
        tabla.push(fila);
        let fila: Vec<i64> = vec![2622, 2135, 1909, 1771, 1644, 1610, 1412, 1334, 1261, 1243, 1231, 1242];
        tabla.push(fila);
        let fila: Vec<i64> = vec![1232, 1225, 1215, 1225, 1249, 1281, 1373, 1421, 1420, 1495, 1541, 1526];
        tabla.push(fila);
        let fila: Vec<i64> = vec![1550, 1714, 1924, 2086, 2147, 2144, 2183, 2097, 2067, 2110, 2044, 2004];
        tabla.push(fila);
        let fila: Vec<i64> = vec![1837, 1678, 1499, 1368, 1266, 1219, 1061, 877, 740, 650, 588, 549];
        tabla.push(fila);
        let fila: Vec<i64> = vec![575, 594, 545, 528, 484, 507, 525, 542, 543, 541, 506, 543];
        tabla.push(fila);
        let fila: Vec<i64> = vec![562, 549, 577, 604, 592, 513, 488, 469, 362, 338, 335, 329];
        tabla.push(fila);
        let fila: Vec<i64> = vec![298, 255, 212, 180, 165, 163, 167, 161, 154, 128, 79, 59];
        tabla.push(fila);
        let fila: Vec<i64> = vec![42, -8, -12, -10, -13, -28, -56, -48, -57, -69, -74, -80];
        tabla.push(fila);
        let fila: Vec<i64> = vec![-95, -106, -110, -119, -127, -149, -154, -156, -168, -180, -189, -190];
        tabla.push(fila);
        let fila: Vec<i64> = vec![-189, -191, -191, -190, -188, -181, -180, -169, -166, -154, -147, -129];
        tabla.push(fila);
        let fila: Vec<i64> = vec![-116, -108, -109, -112, -134, -190, -283, -356, -339, -304, -272, -261];
        tabla.push(fila);
        let fila: Vec<i64> = vec![-253, -288, -266, -108, -81, -147, -279, -359, -415, -466, -481, -497];
        tabla.push(fila);
        let fila: Vec<i64> = vec![-505, -501, -487, -484, -481, -484, -491, -498, -492, -477, -487, -502];
        tabla.push(fila);
        let r = EuriborData { tabla };
        proof {
            assert forall|a: int| 0 <= a < 18 implies r@[a] =~= datos_euribor()[a] by {
            }
            assert(r@ =~= datos_euribor());
        }
        r
    }

    /// El último año presente en la tabla de datos.
    pub fn last_year(&self) -> (r: i32)
        requires
            self.valida(),
        ensures
            r == ULTIMO_AGNO_EURIBOR,
    {
        let n = self.tabla.len();
        proof {
            assert(self@.len() == self.tabla@.len());
            assert(datos_euribor().len() == 18);
        }
        PRIMER_AGNO_EURIBOR + (n as i32) - 1
    }

    /// El euríbor correspondiente a un mes. Si el año es posterior al
    /// último almacenado, devuelve el del mes 12 del último año.
    pub fn euribor_mes(&self, mes: u32, agno: i32) -> (r: i64)
        requires
            self.valida(),
            1 <= mes <= 12,
            agno >= PRIMER_AGNO_EURIBOR,
        ensures
            r as int == euribor_mes_spec(mes as int, agno as int),
    {
        let mut agno_posible = agno;
        let mut mes_posible = mes;
        let agno_max = self.last_year();
        if agno > agno_max {
            agno_posible = agno_max;
            mes_posible = 12;
        }
        let indice_agno = (agno_posible - PRIMER_AGNO_EURIBOR) as usize;
        let indice_mes = (mes_posible - 1) as usize;
        proof {
            let ia = indice_agno as int;
            let im = indice_mes as int;
            assert(self@.len() == self.tabla@.len());
            assert(datos_euribor().len() == 18);
            assert(self@[ia] == datos_euribor()[ia]);
            assert(self@[ia] == self.tabla@[ia]@.map_values(|v: i64| v as int));
            assert(datos_euribor()[ia].len() == 12);
            assert(self.tabla@[ia]@.len() == 12);
            assert(self.tabla@[ia]@[im] as int == self@[ia][im]);
        }
        self.tabla[indice_agno][indice_mes]
    }

    /// El euríbor correspondiente al cierre del mes anterior a la fecha.
    pub fn euribor_fecha(&self, fecha: Fecha) -> (r: i64)
        requires
            self.valida(),
            fecha.valida(),
            fecha_en_rango_euribor(fecha),
        ensures
            r as int == euribor_fecha_spec(fecha),
    {
        let par = mes_anterior_interno(fecha.agno, fecha.mes);
        self.euribor_mes(par.1, par.0)
    }

    /// La actualización contractual del tipo: euríbor del cierre del mes
    /// anterior más el diferencial, ajustado al suelo y al techo.
    pub fn actualiza_euribor(&self, fecha: Fecha, incremento: i64, i_min: i64, i_max: i64) -> (r:
        i64)
        requires
            self.valida(),
            fecha.valida(),
            fecha_en_rango_euribor(fecha),
        ensures
            r as int == actualiza_euribor_spec(
                fecha,
                incremento as int,
                i_min as int,
                i_max as int,
            ),
    {
        let indice = self.euribor_fecha(fecha);
        let mut tipo: i128 = indice as i128 + incremento as i128;
        if tipo < i_min as i128 {
            tipo = i_min as i128;
        }
        if tipo > i_max as i128 {
            tipo = i_max as i128;
        }
        tipo as i64
    }
}

/// El mes anterior de un mes ya comprobado.
fn mes_anterior_interno(agno: i32, mes: u32) -> (r: (i32, u32))
    requires
        agno > i32::MIN,
        1 <= mes <= 12,
    ensures
        mes == 1 ==> r == ((agno - 1) as i32, 12u32),
        mes > 1 ==> r == (agno, (mes - 1) as u32),
{
    if mes == 1 {
        (agno - 1, 12)
    } else {
        (agno, mes - 1)
    }
}

} // verus!
