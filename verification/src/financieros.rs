//! Quarterly financial statements: the provider's answer is read into the rows that
//! the store keeps.

use vstd::prelude::*;
use vstd::string::StringExecFns;
use vstd::string::StrSliceExecFns;
use crate::fechas::parse_date;
use crate::fechas::parsed_date;
use crate::json::Json;
use crate::json::JsonNumber;
use crate::json::Member;
use crate::json::find_member;
use crate::json::member_value;
use crate::text::after_last;
use crate::text::text_after_last;
use crate::text::text_le;
use crate::text::text_before_or_equal;
use crate::types::Date;

verus! {

/// The number of figures kept of a statement of cash flows.
pub const FLUJOS_CAMPOS: usize = 23;

/// The member of a statement of cash flows that holds the figure at place `i` of a
/// row of the store. The places and their columns are:
///
/// 0: `flujo_operacion`, from `cashflowsfromusedinoperatingactivities`
/// 1: `utilidad_neta`, from `profitloss`
/// 2: `depreciacion`, from `adjustmentsfordepreciationandamortisationexpense`
/// 3: `cambio_inventarios`, from `adjustmentsfordecreaseincreaseininventories`
/// 4: `cambio_cxc`, from `adjustmentsfordecreaseincreaseintradeaccountreceivable`
/// 5: `cambio_cxp`, from `adjustmentsforincreasedecreaseintradeaccountpayable`
/// 6: `impuestos_pagados`, from `incometaxespaidrefundclassifiedasoperatingactivities`
/// 7: `intereses_pagados`, from `interestpaidclassifiedasoperatingactivities`
/// 8: `flujo_inversion`, from `cashflowsfromusedininvestingactivities`
/// 9: `capex`, from `purchaseofpropertyplantandequipmentclassifiedasinvestingactivities`
/// 10: `venta_activos`, from `proceedsfromsalesofpropertyplantandequipmentclassifiedasinvestingactivities`
/// 11: `compra_intangibles`, from `purchaseofintangibleassetsclassifiedasinvestingactivities`
/// 12: `flujo_financiamiento`, from `cashflowsfromusedinfinancingactivities`
/// 13: `prestamos_obtenidos`, from `proceedsfromborrowingsclassifiedasfinancingactivities`
/// 14: `pago_deuda`, from `repaymentsofborrowingsclassifiedasfinancingactivities`
/// 15: `dividendos_pagados`, from `dividendspaidclassifiedasfinancingactivities`
/// 16: `recompras`, from `paymentstoacquireorredeementitysshares`
/// 17: `cambio_efectivo`, from `increasedecreaseincashandcashequivalents`
/// 18: `efectivo_final`, from `cashandcashequivalents_ending`
/// 19: `efecto_tc`, from `effectofexchangeratechangesoncashandcashequivalents`
/// 20: `deterioros`, from `adjustmentsforimpairmentlossreversalofimpairmentlossrecognisedinprofitorloss`
/// 21: `partidas_no_monetarias`, from `otheradjustmentsfornoncashitems`
/// 22: `costos_financieros`, from `adjustmentsforfinancecosts`
pub open spec fn flujo_clave(i: int) -> Seq<char> {
    if i == 0 {
        "cashflowsfromusedinoperatingactivities"@
    } else if i == 1 {
        "profitloss"@
    } else if i == 2 {
        "adjustmentsfordepreciationandamortisationexpense"@
    } else if i == 3 {
        "adjustmentsfordecreaseincreaseininventories"@
    } else if i == 4 {
        "adjustmentsfordecreaseincreaseintradeaccountreceivable"@
    } else if i == 5 {
        "adjustmentsforincreasedecreaseintradeaccountpayable"@
    } else if i == 6 {
        "incometaxespaidrefundclassifiedasoperatingactivities"@
    } else if i == 7 {
        "interestpaidclassifiedasoperatingactivities"@
    } else if i == 8 {
        "cashflowsfromusedininvestingactivities"@
    } else if i == 9 {
        "purchaseofpropertyplantandequipmentclassifiedasinvestingactivities"@
    } else if i == 10 {
        "proceedsfromsalesofpropertyplantandequipmentclassifiedasinvestingactivities"@
    } else if i == 11 {
        "purchaseofintangibleassetsclassifiedasinvestingactivities"@
    } else if i == 12 {
        "cashflowsfromusedinfinancingactivities"@
    } else if i == 13 {
        "proceedsfromborrowingsclassifiedasfinancingactivities"@
    } else if i == 14 {
        "repaymentsofborrowingsclassifiedasfinancingactivities"@
    } else if i == 15 {
        "dividendspaidclassifiedasfinancingactivities"@
    } else if i == 16 {
        "paymentstoacquireorredeementitysshares"@
    } else if i == 17 {
        "increasedecreaseincashandcashequivalents"@
    } else if i == 18 {
        "cashandcashequivalents_ending"@
    } else if i == 19 {
        "effectofexchangeratechangesoncashandcashequivalents"@
    } else if i == 20 {
        "adjustmentsforimpairmentlossreversalofimpairmentlossrecognisedinprofitorloss"@
    } else if i == 21 {
        "otheradjustmentsfornoncashitems"@
    } else {
        "adjustmentsforfinancecosts"@
    }
}

/// The member of a statement of cash flows that holds the figure at place `i`.
pub fn clave_de_flujo(i: usize) -> (clave: &'static str)
    requires
        i < FLUJOS_CAMPOS,
    ensures
        clave@ == flujo_clave(i as int),
{
    if i == 0 {
        "cashflowsfromusedinoperatingactivities"
    } else if i == 1 {
        "profitloss"
    } else if i == 2 {
        "adjustmentsfordepreciationandamortisationexpense"
    } else if i == 3 {
        "adjustmentsfordecreaseincreaseininventories"
    } else if i == 4 {
        "adjustmentsfordecreaseincreaseintradeaccountreceivable"
    } else if i == 5 {
        "adjustmentsforincreasedecreaseintradeaccountpayable"
    } else if i == 6 {
        "incometaxespaidrefundclassifiedasoperatingactivities"
    } else if i == 7 {
        "interestpaidclassifiedasoperatingactivities"
    } else if i == 8 {
        "cashflowsfromusedininvestingactivities"
    } else if i == 9 {
        "purchaseofpropertyplantandequipmentclassifiedasinvestingactivities"
    } else if i == 10 {
        "proceedsfromsalesofpropertyplantandequipmentclassifiedasinvestingactivities"
    } else if i == 11 {
        "purchaseofintangibleassetsclassifiedasinvestingactivities"
    } else if i == 12 {
        "cashflowsfromusedinfinancingactivities"
    } else if i == 13 {
        "proceedsfromborrowingsclassifiedasfinancingactivities"
    } else if i == 14 {
        "repaymentsofborrowingsclassifiedasfinancingactivities"
    } else if i == 15 {
        "dividendspaidclassifiedasfinancingactivities"
    } else if i == 16 {
        "paymentstoacquireorredeementitysshares"
    } else if i == 17 {
        "increasedecreaseincashandcashequivalents"
    } else if i == 18 {
        "cashandcashequivalents_ending"
    } else if i == 19 {
        "effectofexchangeratechangesoncashandcashequivalents"
    } else if i == 20 {
        "adjustmentsforimpairmentlossreversalofimpairmentlossrecognisedinprofitorloss"
    } else if i == 21 {
        "otheradjustmentsfornoncashitems"
    } else {
        "adjustmentsforfinancecosts"
    }
}

/// The figure under `key` in the data of one period: the provider gives each figure
/// as a list, and the number at the second place of the list is the figure.
pub open spec fn numero_at(datos: Json, key: Seq<char>) -> Option<JsonNumber> {
    match datos.field(key) {
        Some(v) => match v.element(1) {
            Some(Json::Number(n)) => Some(n),
            _ => None,
        },
        None => None,
    }
}

/// What an optional reference to a number refers to.
pub open spec fn referred_number(n: Option<&JsonNumber>) -> Option<JsonNumber> {
    match n {
        Some(n) => Some(*n),
        None => None,
    }
}

/// The figure under `key` in the data of one period.
pub fn numero_en<'a>(datos: &'a Json, key: &str) -> (r: Option<&'a JsonNumber>)
    ensures
        referred_number(r) == numero_at(*datos, key@),
{
    match datos.get(key) {
        Some(v) => match v.get_index(1) {
            Some(Json::Number(n)) => Some(n),
            _ => None,
        },
        None => None,
    }
}

/// The member whose key comes last in the order of texts; of members with the same
/// key, the later one.
pub open spec fn ultimo_periodo(periodos: Seq<Member>) -> Option<Member>
    decreases periodos.len(),
{
    if periodos.len() == 0 {
        None
    } else {
        match ultimo_periodo(periodos.drop_last()) {
            None => Some(periodos.last()),
            Some(best) => if text_before_or_equal(best.key@, periodos.last().key@) {
                Some(periodos.last())
            } else {
                Some(best)
            },
        }
    }
}

/// What an optional reference to a member refers to.
pub open spec fn referred_member(m: Option<&Member>) -> Option<Member> {
    match m {
        Some(m) => Some(*m),
        None => None,
    }
}

/// The member whose key comes last in the order of texts.
pub fn buscar_ultimo_periodo<'a>(periodos: &'a Vec<Member>) -> (r: Option<&'a Member>)
    ensures
        referred_member(r) == ultimo_periodo(periodos@),
{
    let mut best: Option<&'a Member> = None;
    let mut i: usize = 0;
    while i < periodos.len()
        invariant
            i <= periodos.len(),
            referred_member(best) == ultimo_periodo(periodos@.take(i as int)),
        decreases periodos.len() - i,
    {
        assert(periodos@.take(i + 1).drop_last() =~= periodos@.take(i as int));
        let m = &periodos[i];
        best = match best {
            None => Some(m),
            Some(b) => if text_le(b.key.as_str(), m.key.as_str()) {
                Some(m)
            } else {
                Some(b)
            },
        };
        i = i + 1;
    }
    assert(periodos@.take(i as int) =~= periodos@);
    best
}

/// A statement of cash flows for one period: the period as the provider names it,
/// the date at its end, and the figures in the order of `flujo_clave`, each as the
/// document gives it or absent.
#[derive(Debug)]
pub struct EstadoFlujos<'a> {
    pub periodo: String,
    pub fecha: Date,
    pub valores: Vec<Option<&'a JsonNumber>>,
}

/// A statement of cash flows as the decoding reasons about it.
pub struct FlujosModel {
    pub periodo: Seq<char>,
    pub fecha: Date,
    pub valores: Seq<Option<JsonNumber>>,
}

impl<'a> View for EstadoFlujos<'a> {
    type V = FlujosModel;

    open spec fn view(&self) -> FlujosModel {
        FlujosModel {
            periodo: self.periodo@,
            fecha: self.fecha,
            valores: self.valores@.map_values(|n: Option<&JsonNumber>| referred_number(n)),
        }
    }
}

/// The view of an optional statement.
pub open spec fn flujos_model(e: Option<EstadoFlujos>) -> Option<FlujosModel> {
    match e {
        Some(e) => Some(e@),
        None => None,
    }
}

/// The date at the end of a period: what follows the last underscore of its name,
/// read as a date, if it is one.
pub open spec fn fecha_de_periodo(periodo: Seq<char>) -> Option<Date> {
    parsed_date(after_last(periodo, '_'))
}

/// The statement of cash flows of one period.
pub open spec fn flujos_de_periodo(periodo: Member) -> Option<FlujosModel> {
    match fecha_de_periodo(periodo.key@) {
        Some(fecha) => Some(
            FlujosModel {
                periodo: periodo.key@,
                fecha,
                valores: Seq::new(
                    FLUJOS_CAMPOS as nat,
                    |i: int| numero_at(periodo.value, flujo_clave(i)),
                ),
            },
        ),
        None => None,
    }
}

/// The statement of cash flows that an answer holds: that of the last period under
/// `flujos`, where that member is an object with a period whose name ends in a
/// date.
pub open spec fn flujos_de(respuesta: Seq<Member>) -> Option<FlujosModel> {
    match member_value(respuesta, "flujos"@) {
        Some(Json::Object(periodos)) => match ultimo_periodo(periodos@) {
            Some(periodo) => flujos_de_periodo(periodo),
            None => None,
        },
        _ => None,
    }
}

/// Reads the date at the end of a period from the name of the period.
pub fn leer_fecha_de_periodo(periodo: &str) -> (r: Option<Date>)
    ensures
        r == fecha_de_periodo(periodo@),
{
    let fecha = text_after_last(periodo, '_');
    match parse_date(fecha.as_str()) {
        Ok(date) => Some(date),
        Err(_) => None,
    }
}

/// Reads the answer to a request for the statement of cash flows of a quarter. Of
/// the periods under `flujos` the one whose name comes last is taken. Where the
/// answer holds no such period, or the name of the period does not end in a date,
/// there is nothing to store.
pub fn leer_flujos<'a>(respuesta: &'a Vec<Member>) -> (r: Option<EstadoFlujos<'a>>)
    ensures
        flujos_model(r) == flujos_de(respuesta@),
{
    let periodos = match find_member(respuesta, "flujos") {
        Some(Json::Object(periodos)) => periodos,
        _ => {
            return None;
        },
    };
    let periodo = match buscar_ultimo_periodo(periodos) {
        Some(periodo) => periodo,
        None => {
            return None;
        },
    };
    let fecha = match leer_fecha_de_periodo(periodo.key.as_str()) {
        Some(fecha) => fecha,
        None => {
            return None;
        },
    };
    let mut valores: Vec<Option<&'a JsonNumber>> = Vec::new();
    let mut i: usize = 0;
    while i < FLUJOS_CAMPOS
        invariant
            i <= FLUJOS_CAMPOS,
            valores.len() == i,
            forall|k: int|
                0 <= k < i ==> referred_number(#[trigger] valores[k]) == numero_at(
                    periodo.value,
                    flujo_clave(k),
                ),
        decreases FLUJOS_CAMPOS - i,
    {
        valores.push(numero_en(&periodo.value, clave_de_flujo(i)));
        i = i + 1;
    }
    let estado = EstadoFlujos { periodo: periodo.key.clone(), fecha, valores };
    assert(estado@.valores =~= flujos_de_periodo(*periodo)->0.valores);
    Some(estado)
}

/// The income statement of one period: the period as the provider names it, the
/// date at its end, four of its figures, and the data of the period as the document
/// gives them.
#[derive(Debug)]
pub struct ResultadoTrimestre<'a> {
    pub periodo: String,
    pub fecha: Date,
    pub ingresos: Option<&'a JsonNumber>,
    pub utilidad_bruta: Option<&'a JsonNumber>,
    pub utilidad_operacion: Option<&'a JsonNumber>,
    pub utilidad_neta: Option<&'a JsonNumber>,
    pub datos: &'a Json,
}

/// An income statement as the decoding reasons about it.
pub struct ResultadoModel {
    pub periodo: Seq<char>,
    pub fecha: Date,
    pub ingresos: Option<JsonNumber>,
    pub utilidad_bruta: Option<JsonNumber>,
    pub utilidad_operacion: Option<JsonNumber>,
    pub utilidad_neta: Option<JsonNumber>,
    pub datos: Json,
}

impl<'a> View for ResultadoTrimestre<'a> {
    type V = ResultadoModel;

    open spec fn view(&self) -> ResultadoModel {
        ResultadoModel {
            periodo: self.periodo@,
            fecha: self.fecha,
            ingresos: referred_number(self.ingresos),
            utilidad_bruta: referred_number(self.utilidad_bruta),
            utilidad_operacion: referred_number(self.utilidad_operacion),
            utilidad_neta: referred_number(self.utilidad_neta),
            datos: *self.datos,
        }
    }
}

/// The views of a list of income statements, in the order of the list.
pub open spec fn resultado_models(rows: Seq<ResultadoTrimestre>) -> Seq<ResultadoModel> {
    rows.map_values(|r: ResultadoTrimestre| r@)
}

/// The income statement of one period, where the name of the period ends in a date.
pub open spec fn resultado_de_periodo(periodo: Member) -> Seq<ResultadoModel> {
    match fecha_de_periodo(periodo.key@) {
        Some(fecha) => seq![
            ResultadoModel {
                periodo: periodo.key@,
                fecha,
                ingresos: numero_at(periodo.value, "revenue"@),
                utilidad_bruta: numero_at(periodo.value, "grossprofit"@),
                utilidad_operacion: numero_at(
                    periodo.value,
                    "profitlossfromoperatingactivities"@,
                ),
                utilidad_neta: numero_at(periodo.value, "profitloss"@),
                datos: periodo.value,
            },
        ],
        None => Seq::empty(),
    }
}

/// The income statements of a list of periods, in the order of the list; a period
/// whose name does not end in a date is left out.
pub open spec fn resultados_de_periodos(periodos: Seq<Member>) -> Seq<ResultadoModel>
    decreases periodos.len(),
{
    if periodos.len() == 0 {
        Seq::empty()
    } else {
        resultados_de_periodos(periodos.drop_last()) + resultado_de_periodo(periodos.last())
    }
}

/// The income statements that an answer holds: those of the periods under
/// `resultado_trimestre`, where that member is an object.
pub open spec fn resultados_de(respuesta: Seq<Member>) -> Option<Seq<ResultadoModel>> {
    match member_value(respuesta, "resultado_trimestre"@) {
        Some(Json::Object(periodos)) => Some(resultados_de_periodos(periodos@)),
        _ => None,
    }
}

/// The views of an optional list of income statements.
pub open spec fn resultados_model(r: Option<Vec<ResultadoTrimestre>>) -> Option<
    Seq<ResultadoModel>,
> {
    match r {
        Some(rows) => Some(resultado_models(rows@)),
        None => None,
    }
}

/// Reads the answer to a request for the income statement of a quarter: one row for
/// each period under `resultado_trimestre` whose name ends in a date, in the order
/// of the document. Nothing is read where the answer holds no such object.
pub fn leer_resultados<'a>(respuesta: &'a Vec<Member>) -> (r: Option<
    Vec<ResultadoTrimestre<'a>>,
>)
    ensures
        resultados_model(r) == resultados_de(respuesta@),
{
    let periodos = match find_member(respuesta, "resultado_trimestre") {
        Some(Json::Object(periodos)) => periodos,
        _ => {
            return None;
        },
    };
    let mut rows: Vec<ResultadoTrimestre<'a>> = Vec::new();
    let mut i: usize = 0;
    assert(resultado_models(rows@) =~= resultados_de_periodos(periodos@.take(0)));
    while i < periodos.len()
        invariant
            i <= periodos.len(),
            resultado_models(rows@) == resultados_de_periodos(periodos@.take(i as int)),
        decreases periodos.len() - i,
    {
        assert(periodos@.take(i + 1).drop_last() =~= periodos@.take(i as int));
        let periodo = &periodos[i];
        let ghost before = resultado_models(rows@);
        match leer_fecha_de_periodo(periodo.key.as_str()) {
            Some(fecha) => {
                rows.push(
                    ResultadoTrimestre {
                        periodo: periodo.key.clone(),
                        fecha,
                        ingresos: numero_en(&periodo.value, "revenue"),
                        utilidad_bruta: numero_en(&periodo.value, "grossprofit"),
                        utilidad_operacion: numero_en(
                            &periodo.value,
                            "profitlossfromoperatingactivities",
                        ),
                        utilidad_neta: numero_en(&periodo.value, "profitloss"),
                        datos: &periodo.value,
                    },
                );
            },
            None => {},
        }
        assert(resultado_models(rows@) =~= before + resultado_de_periodo(*periodo));
        i = i + 1;
    }
    assert(periodos@.take(i as int) =~= periodos@);
    Some(rows)
}

/// Whether a character is one of the ten digits.
pub open spec fn is_digit(c: char) -> bool {
    '0' <= c <= '9'
}

/// The number that a digit stands for.
pub open spec fn digit_value(c: char) -> int {
    c as int - '0' as int
}

/// The number that three digits stand for.
pub open spec fn three_digits(a: char, b: char, c: char) -> int {
    digit_value(a) * 100 + digit_value(b) * 10 + digit_value(c)
}

/// The year that the name of a quarter begins with: its first four characters read
/// as a whole number, which may begin with a sign, and 0 where they are not one.
pub open spec fn anio_de(trimestre: Seq<char>) -> int {
    if trimestre.len() >= 4 && is_digit(trimestre[1]) && is_digit(trimestre[2]) && is_digit(
        trimestre[3],
    ) {
        if is_digit(trimestre[0]) {
            digit_value(trimestre[0]) * 1000 + three_digits(trimestre[1], trimestre[2], trimestre[3])
        } else if trimestre[0] == '+' {
            three_digits(trimestre[1], trimestre[2], trimestre[3])
        } else if trimestre[0] == '-' {
            -three_digits(trimestre[1], trimestre[2], trimestre[3])
        } else {
            0
        }
    } else {
        0
    }
}

/// The number that a character stands for, if it is a digit.
fn leer_digito(c: char) -> (r: Option<i32>)
    ensures
        match r {
            Some(d) => is_digit(c) && d == digit_value(c),
            None => !is_digit(c),
        },
{
    let code: u32 = c as u32;
    if 48 <= code && code <= 57 {
        Some((code - 48) as i32)
    } else {
        None
    }
}

/// Reads the year from the name of a quarter, such as `2024Q4`.
pub fn anio_de_trimestre(trimestre: &str) -> (anio: i32)
    ensures
        anio == anio_de(trimestre@),
{
    if trimestre.unicode_len() < 4 {
        return 0;
    }
    let first = trimestre.get_char(0);
    let (b, c, d): (i32, i32, i32) = match (
        leer_digito(trimestre.get_char(1)),
        leer_digito(trimestre.get_char(2)),
        leer_digito(trimestre.get_char(3)),
    ) {
        (Some(b), Some(c), Some(d)) => (b, c, d),
        _ => {
            return 0;
        },
    };
    let rest: i32 = b * 100 + c * 10 + d;
    match leer_digito(first) {
        Some(a) => a * 1000 + rest,
        None => if first == '+' {
            rest
        } else if first == '-' {
            -rest
        } else {
            0
        },
    }
}

} // verus!
