use portfolio_ledger::cotizaciones::calcular_intradia;
use portfolio_ledger::cotizaciones::leer_cotizacion;
use portfolio_ledger::cotizaciones::Cotizacion;
use portfolio_ledger::emisoras::guardado_para;
use portfolio_ledger::emisoras::leer_catalogo;
use portfolio_ledger::emisoras::leer_emisora;
use portfolio_ledger::emisoras::Guardado;
use portfolio_ledger::fechas::FechaHora;
use portfolio_ledger::financieros::anio_de_trimestre;
use portfolio_ledger::financieros::buscar_ultimo_periodo;
use portfolio_ledger::financieros::clave_de_flujo;
use portfolio_ledger::financieros::leer_fecha_de_periodo;
use portfolio_ledger::financieros::leer_flujos;
use portfolio_ledger::financieros::leer_resultados;
use portfolio_ledger::financieros::numero_en;
use portfolio_ledger::financieros::FLUJOS_CAMPOS;
use portfolio_ledger::intradia::leer_intradia;
use portfolio_ledger::json::Json;
use portfolio_ledger::json::JsonNumber;
use portfolio_ledger::json::Member;
use portfolio_ledger::ticker_tape::get_ticker_data;
use portfolio_ledger::ticker_tape::Indicador;
use portfolio_ledger::ticker_tape::SimpleTopChange;
use portfolio_ledger::types::Date;

fn text(s: &str) -> Json {
    Json::Text(s.to_string())
}

fn whole(n: i64) -> Json {
    Json::Number(JsonNumber { text: n.to_string(), integer: Some(n), millionths: n.checked_mul(1_000_000) })
}

fn decimal(written: &str, millionths: i64) -> Json {
    Json::Number(JsonNumber { text: written.to_string(), integer: None, millionths: Some(millionths) })
}

fn object(members: Vec<(&str, Json)>) -> Json {
    Json::Object(members.into_iter().map(|(k, v)| Member { key: k.to_string(), value: v }).collect())
}

fn members(value: Json) -> Vec<Member> {
    match value {
        Json::Object(members) => members,
        _ => panic!("not an object"),
    }
}

#[test]
fn a_json_value_is_read_by_key_and_by_place() {
    let doc = object(vec![("a", whole(1)), ("b", text("x")), ("a", whole(2)), ("c", Json::Array(vec![Json::Null, Json::Bool(true)]))]);
    assert_eq!(doc.get("a").unwrap().as_i64(), Some(1));
    assert_eq!(doc.get("b").unwrap().as_str(), Some("x"));
    assert!(doc.get("z").is_none());
    assert!(doc.get("a").unwrap().get("a").is_none());
    assert!(doc.get("a").unwrap().as_str().is_none());
    assert_eq!(doc.get("a").unwrap().as_millionths(), Some(1_000_000));
    assert!(doc.get("b").unwrap().as_i64().is_none());
    assert!(doc.get("b").unwrap().as_millionths().is_none());
    let list = doc.get("c").unwrap();
    assert!(matches!(list.get_index(1), Some(Json::Bool(true))));
    assert!(matches!(list.get_index(0), Some(Json::Null)));
    assert!(list.get_index(2).is_none());
    assert!(doc.get_index(0).is_none());
    assert_eq!(list.as_array().unwrap().len(), 2);
    assert!(list.as_object().is_none());
    assert_eq!(doc.as_object().unwrap().len(), 4);
    assert!(doc.as_array().is_none());
}

fn emisora(razon: &str) -> Json {
    object(vec![
        ("razon_social", text(razon)),
        ("isin", text("MX01WA000038")),
        ("bolsa", text("BMV")),
        ("tipo_valor_descripcion", text("ACCIONES")),
        ("tipo_valor_id", text("1")),
        ("estatus", text("ACTIVA")),
        ("acciones_en_circulacion", whole(17_461_402_631)),
        ("rango_historicos", text("2000-2025")),
        ("dividendos", Json::Array(vec![whole(1)])),
    ])
}

#[test]
fn the_data_of_an_issuer_are_read_field_by_field() {
    let fields = members(emisora("WAL-MART DE MEXICO"));
    let e = leer_emisora(&fields);
    assert_eq!(e.razon_social, "WAL-MART DE MEXICO");
    assert_eq!(e.isin, "MX01WA000038");
    assert_eq!(e.bolsa, "BMV");
    assert_eq!(e.tipo_valor.as_deref(), Some("ACCIONES"));
    assert_eq!(e.tipo_valor_id, "1");
    assert_eq!(e.estatus, "ACTIVA");
    assert_eq!(e.acciones_circulacion, Some(17_461_402_631));
    assert_eq!(e.rangos_historicos.as_deref(), Some("2000-2025"));
    assert_eq!(e.rangos_financieros, None);
    assert!(matches!(e.dividendos, Some(Json::Array(items)) if items.len() == 1));
    let odd = members(object(vec![("razon_social", whole(3)), ("acciones_en_circulacion", text("muchas"))]));
    let e = leer_emisora(&odd);
    assert_eq!(e.razon_social, "");
    assert_eq!(e.isin, "");
    assert_eq!(e.tipo_valor, None);
    assert_eq!(e.acciones_circulacion, None);
    assert!(e.dividendos.is_none());
}

#[test]
fn the_catalogue_is_read_row_by_row() {
    let doc = members(object(vec![
        ("WALMEX", object(vec![("*", emisora("WALMEX uno"))])),
        ("ROTO", text("sin datos")),
        (
            "GFNORTE",
            object(vec![
                ("O", Json::Array(vec![emisora("GFNORTE a"), whole(1), emisora("GFNORTE b")])),
                ("L", emisora("GFNORTE l")),
                ("X", Json::Null),
            ]),
        ),
        ("NADA", Json::Array(vec![emisora("perdida")])),
    ]));
    let catalogo = leer_catalogo(&doc);
    let rows: Vec<(&str, &str, &str)> = catalogo
        .registros
        .iter()
        .map(|r| (r.ticker.as_str(), r.serie.as_str(), r.emisora.razon_social.as_str()))
        .collect();
    assert_eq!(
        rows,
        vec![
            ("WALMEX", "*", "WALMEX uno"),
            ("GFNORTE", "O", "GFNORTE a"),
            ("GFNORTE", "O", "GFNORTE b"),
            ("GFNORTE", "L", "GFNORTE l"),
        ]
    );
    assert_eq!(catalogo.sin_objeto, vec!["ROTO".to_string(), "NADA".to_string()]);
    let nothing = Vec::new();
    let empty = leer_catalogo(&nothing);
    assert!(empty.registros.is_empty());
    assert!(empty.sin_objeto.is_empty());
    assert_eq!(guardado_para(true), Guardado::Actualizar);
    assert_eq!(guardado_para(false), Guardado::Insertar);
}

#[test]
fn the_first_quote_of_an_answer_is_read() {
    let doc = members(object(vec![
        ("ROTO", whole(1)),
        ("VACIA", object(vec![("BMV", Json::Null)])),
        (
            "WALMEX*",
            object(vec![
                ("BIVA", text("cerrada")),
                ("BMV", object(vec![("u", decimal("61.25", 61_250_000)), ("p", decimal("60.9", 60_900_000)), ("v", whole(1500)), ("f", text("2025-06-24"))])),
                ("OTRA", object(vec![("u", whole(1))])),
            ]),
        ),
        ("DESPUES", object(vec![("BMV", object(vec![("u", whole(2))]))])),
    ]));
    let c = leer_cotizacion(&doc).unwrap();
    assert_eq!(c.simbolo, "WALMEX*");
    assert_eq!(c.ultimo_precio, Some(61_250_000));
    assert_eq!(c.precio_promedio, Some(60_900_000));
    assert_eq!(c.volumen, Some(1_500_000_000));
    assert_eq!(c.fecha.as_deref(), Some("2025-06-24"));
    let partial = members(object(vec![("A", object(vec![("BMV", object(vec![("u", text("caro")), ("f", whole(3))]))]))]));
    let c = leer_cotizacion(&partial).unwrap();
    assert_eq!(c.simbolo, "A");
    assert_eq!(c.ultimo_precio, None);
    assert_eq!(c.precio_promedio, None);
    assert_eq!(c.volumen, None);
    assert_eq!(c.fecha, None);
    assert!(leer_cotizacion(&Vec::new()).is_none());
    assert!(leer_cotizacion(&members(object(vec![("A", object(vec![("BMV", whole(1))]))]))).is_none());
}

fn quote(ultimo: Option<i64>, promedio: Option<i64>, volumen: Option<i64>) -> Option<Cotizacion> {
    Some(Cotizacion { simbolo: "A".to_string(), ultimo_precio: ultimo, precio_promedio: promedio, volumen, fecha: None })
}

#[test]
fn the_figures_of_a_security_follow_from_its_quote() {
    let d = calcular_intradia(&quote(Some(110_000_000), Some(105_000_000), Some(1_500_999_999)), Some(100_000_000));
    assert_eq!(d.price, 110_000_000);
    assert_eq!(d.open, 105_000_000);
    assert_eq!(d.high, 0);
    assert_eq!(d.low, 0);
    assert_eq!(d.volume, 1500);
    assert_eq!(d.change, 10_000_000);
    assert_eq!(d.change_percent, 10_000_000);
    let d = calcular_intradia(&quote(Some(110_000_000), Some(100_000_000), None), None);
    assert_eq!(d.change, 10_000_000);
    assert_eq!(d.change_percent, 10_000_000);
    assert_eq!(d.volume, 0);
    let d = calcular_intradia(&quote(None, Some(7), Some(-1_500_000)), Some(50));
    assert_eq!(d.price, 50);
    assert_eq!(d.open, 7);
    assert_eq!(d.change, 0);
    assert_eq!(d.change_percent, 0);
    assert_eq!(d.volume, -1);
    let d = calcular_intradia(&None, None);
    assert_eq!((d.price, d.open, d.volume, d.change, d.change_percent), (0, 0, 0, 0, 0));
    let d = calcular_intradia(&None, Some(42));
    assert_eq!((d.price, d.change, d.change_percent), (42, 0, 0));
    let d = calcular_intradia(&quote(Some(2), None, None), Some(3));
    assert_eq!(d.change, -1);
    assert_eq!(d.change_percent, -33_333_334);
    let d = calcular_intradia(&quote(Some(5), None, None), Some(-3));
    assert_eq!((d.price, d.change, d.change_percent), (5, 0, 0));
    let d = calcular_intradia(&quote(None, None, Some(i64::MIN)), None);
    assert_eq!(d.volume, -9_223_372_036_854);
}

#[test]
fn intraday_prices_are_read_until_a_time_cannot_be_read() {
    let doc = members(object(vec![
        ("WALMEX*", object(vec![("2025-06-24 09:00:00", decimal("61.25", 61_250_000)), ("nota", text("x")), ("2025-06-24 10:30:05", whole(62))])),
        ("ROTO", whole(1)),
        ("AMXB", object(vec![("2025-06-24 09:00:00", whole(15))])),
    ]));
    let leido = leer_intradia(&doc);
    assert!(leido.fecha_invalida.is_none());
    assert_eq!(leido.precios.len(), 3);
    assert_eq!(leido.precios[0].emisora, "WALMEX*");
    assert_eq!(
        leido.precios[0].fecha_hora,
        FechaHora { date: Date { year: 2025, month: 6, day: 24 }, hour: 9, minute: 0, second: 0 }
    );
    assert_eq!(leido.precios[0].precio.text, "61.25");
    assert_eq!(
        leido.precios[1].fecha_hora,
        FechaHora { date: Date { year: 2025, month: 6, day: 24 }, hour: 10, minute: 30, second: 5 }
    );
    assert_eq!(leido.precios[1].precio.integer, Some(62));
    assert_eq!(leido.precios[2].emisora, "AMXB");
    let broken = members(object(vec![
        ("A", object(vec![("2025-06-24 09:00:00", whole(1)), ("ayer", whole(2)), ("2025-06-24 11:00:00", whole(3))])),
        ("B", object(vec![("2025-06-24 09:00:00", whole(4))])),
    ]));
    let leido = leer_intradia(&broken);
    assert_eq!(leido.fecha_invalida.as_deref(), Some("ayer"));
    assert_eq!(leido.precios.len(), 1);
    let skipped = members(object(vec![("A", object(vec![("ayer", text("no es precio")), ("2025-02-30 09:00:00", whole(1))]))]));
    let leido = leer_intradia(&skipped);
    assert_eq!(leido.fecha_invalida.as_deref(), Some("2025-02-30 09:00:00"));
    assert!(leido.precios.is_empty());
    assert!(leer_intradia(&Vec::new()).precios.is_empty());
}

fn figure(n: i64) -> Json {
    Json::Array(vec![text("MXN"), whole(n)])
}

#[test]
fn the_statement_of_cash_flows_of_the_last_period_is_read() {
    let doc = members(object(vec![(
        "flujos",
        object(vec![
            ("2024Q3_2024-09-30", object(vec![("profitloss", figure(1))])),
            (
                "2024Q4_2024-12-31",
                object(vec![
                    ("cashflowsfromusedinoperatingactivities", figure(900)),
                    ("profitloss", figure(250)),
                    ("adjustmentsforfinancecosts", figure(-7)),
                    ("cashandcashequivalents_ending", Json::Array(vec![whole(5)])),
                    ("otheradjustmentsfornoncashitems", Json::Array(vec![whole(5), text("sin numero")])),
                ]),
            ),
            ("2024Q1_2024-03-31", object(vec![("profitloss", figure(2))])),
        ]),
    )]));
    let estado = leer_flujos(&doc).unwrap();
    assert_eq!(estado.periodo, "2024Q4_2024-12-31");
    assert_eq!(estado.fecha, Date { year: 2024, month: 12, day: 31 });
    assert_eq!(estado.valores.len(), FLUJOS_CAMPOS);
    assert_eq!(estado.valores[0].unwrap().integer, Some(900));
    assert_eq!(estado.valores[1].unwrap().integer, Some(250));
    assert_eq!(estado.valores[22].unwrap().integer, Some(-7));
    assert!(estado.valores[18].is_none());
    assert!(estado.valores[21].is_none());
    assert!(estado.valores[2].is_none());
    assert!(leer_flujos(&Vec::new()).is_none());
    assert!(leer_flujos(&members(object(vec![("flujos", whole(1))]))).is_none());
    assert!(leer_flujos(&members(object(vec![("flujos", object(vec![]))]))).is_none());
    let undated = members(object(vec![("flujos", object(vec![("2024Q4", object(vec![("profitloss", figure(1))]))]))]));
    assert!(leer_flujos(&undated).is_none());
}

#[test]
fn the_keys_of_a_statement_of_cash_flows_stand_in_the_order_of_the_store() {
    assert_eq!(FLUJOS_CAMPOS, 23);
    assert_eq!(clave_de_flujo(0), "cashflowsfromusedinoperatingactivities");
    assert_eq!(clave_de_flujo(1), "profitloss");
    assert_eq!(clave_de_flujo(9), "purchaseofpropertyplantandequipmentclassifiedasinvestingactivities");
    assert_eq!(clave_de_flujo(18), "cashandcashequivalents_ending");
    assert_eq!(clave_de_flujo(22), "adjustmentsforfinancecosts");
    let mut seen = Vec::new();
    for i in 0..FLUJOS_CAMPOS {
        assert!(!seen.contains(&clave_de_flujo(i)));
        seen.push(clave_de_flujo(i));
    }
}

#[test]
fn a_figure_is_the_number_at_the_second_place() {
    let datos = object(vec![("a", figure(3)), ("b", whole(3)), ("c", Json::Array(vec![whole(1), text("x")])), ("d", Json::Array(vec![]))]);
    assert_eq!(numero_en(&datos, "a").unwrap().integer, Some(3));
    assert!(numero_en(&datos, "b").is_none());
    assert!(numero_en(&datos, "c").is_none());
    assert!(numero_en(&datos, "d").is_none());
    assert!(numero_en(&datos, "e").is_none());
    assert!(numero_en(&whole(1), "a").is_none());
}

#[test]
fn the_last_period_is_the_one_whose_name_comes_last() {
    let periodos = members(object(vec![("2024Q1", whole(1)), ("2024Q4", whole(2)), ("2023Q4", whole(3)), ("2024Q4", whole(4))]));
    let m = buscar_ultimo_periodo(&periodos).unwrap();
    assert_eq!(m.key, "2024Q4");
    assert_eq!(m.value.as_i64(), Some(4));
    assert!(buscar_ultimo_periodo(&Vec::new()).is_none());
}

#[test]
fn the_date_of_a_period_is_read_from_its_name() {
    assert_eq!(leer_fecha_de_periodo("2024Q4_2024-12-31"), Some(Date { year: 2024, month: 12, day: 31 }));
    assert_eq!(leer_fecha_de_periodo("2024-02-29"), Some(Date { year: 2024, month: 2, day: 29 }));
    assert_eq!(leer_fecha_de_periodo("x_y_2023-01-05"), Some(Date { year: 2023, month: 1, day: 5 }));
    assert_eq!(leer_fecha_de_periodo("2024Q4_2024-02-30"), None);
    assert_eq!(leer_fecha_de_periodo("2024-12-31_"), None);
    assert_eq!(leer_fecha_de_periodo("2024Q4"), None);
    assert_eq!(leer_fecha_de_periodo(""), None);
}

#[test]
fn income_statements_are_read_period_by_period() {
    let doc = members(object(vec![(
        "resultado_trimestre",
        object(vec![
            ("2024Q3_2024-09-30", object(vec![("revenue", figure(100)), ("grossprofit", figure(40)), ("profitlossfromoperatingactivities", figure(20)), ("profitloss", figure(10))])),
            ("sin fecha", object(vec![("revenue", figure(1))])),
            ("2024Q4_2024-12-31", object(vec![("revenue", figure(120))])),
        ]),
    )]));
    let rows = leer_resultados(&doc).unwrap();
    assert_eq!(rows.len(), 2);
    assert_eq!(rows[0].periodo, "2024Q3_2024-09-30");
    assert_eq!(rows[0].fecha, Date { year: 2024, month: 9, day: 30 });
    assert_eq!(rows[0].ingresos.unwrap().integer, Some(100));
    assert_eq!(rows[0].utilidad_bruta.unwrap().integer, Some(40));
    assert_eq!(rows[0].utilidad_operacion.unwrap().integer, Some(20));
    assert_eq!(rows[0].utilidad_neta.unwrap().integer, Some(10));
    assert!(rows[0].datos.get("revenue").is_some());
    assert_eq!(rows[1].periodo, "2024Q4_2024-12-31");
    assert_eq!(rows[1].ingresos.unwrap().integer, Some(120));
    assert!(rows[1].utilidad_neta.is_none());
    assert!(leer_resultados(&Vec::new()).is_none());
    assert!(leer_resultados(&members(object(vec![("resultado_trimestre", Json::Array(vec![]))]))).is_none());
    assert!(leer_resultados(&members(object(vec![("resultado_trimestre", object(vec![]))]))).unwrap().is_empty());
}

#[test]
fn the_year_is_read_from_the_name_of_a_quarter() {
    assert_eq!(anio_de_trimestre("2024Q4"), 2024);
    assert_eq!(anio_de_trimestre("1999"), 1999);
    assert_eq!(anio_de_trimestre("0007Q1"), 7);
    assert_eq!(anio_de_trimestre("+123"), 123);
    assert_eq!(anio_de_trimestre("-123Q"), -123);
    assert_eq!(anio_de_trimestre("-000"), 0);
    for odd in ["", "202", "20Q4", "Q42024", "2O24", " 2024", "20 24", "++12", "12+3", "ñ024", "2024"] {
        let expected = odd.get(0..4).and_then(|s| s.parse::<i32>().ok()).unwrap_or(0);
        assert_eq!(anio_de_trimestre(odd), expected);
    }
    for odd in ["1é2", "é2024", "20é4", "٢٠٢٤"] {
        let expected = odd.get(0..4).and_then(|s| s.parse::<i32>().ok()).unwrap_or(0);
        assert_eq!(anio_de_trimestre(odd), expected);
    }
}

fn mover(e: &str, u: i64, c: i64) -> SimpleTopChange {
    SimpleTopChange { e: e.to_string(), u, c }
}

#[test]
fn the_tape_lists_indices_rates_and_movers() {
    let suben: Vec<SimpleTopChange> = (0..7).map(|i| mover(&format!("S{i}"), 10 + i, 100 + i)).collect();
    let bajan = vec![mover("B0", 5, -3), mover("B1", 6, -2)];
    let data = get_ticker_data(
        Some(Indicador { u: 57_000_000_000, c: 1_250_000 }),
        None,
        Some(Indicador { u: 18_500_000, c: -300_000 }),
        Some(Indicador { u: 20_100_000, c: 0 }),
        &suben,
        &bajan,
    );
    let lines: Vec<(&str, i64, i64, i64)> =
        data.iter().map(|t| (t.symbol.as_str(), t.price, t.change, t.change_percent)).collect();
    assert_eq!(
        lines,
        vec![
            ("IPC", 57_000_000_000, 0, 1_250_000),
            ("USD/MXN", 18_500_000, 0, -300_000),
            ("EUR/MXN", 20_100_000, 0, 0),
            ("S0", 10, 0, 100),
            ("S1", 11, 0, 101),
            ("S2", 12, 0, 102),
            ("S3", 13, 0, 103),
            ("S4", 14, 0, 104),
            ("B0", 5, 0, -3),
            ("B1", 6, 0, -2),
        ]
    );
    let only = get_ticker_data(None, Some(Indicador { u: 1, c: 2 }), None, None, &Vec::new(), &Vec::new());
    assert_eq!(only.len(), 1);
    assert_eq!(only[0].symbol, "S&P 500");
    assert!(get_ticker_data(None, None, None, None, &Vec::new(), &Vec::new()).is_empty());
}
