use portfolio_ledger::dedup::eliminar_duplicados_emisoras_hashset;
use portfolio_ledger::dedup::eliminar_duplicados_emisoras_iterativo;
use portfolio_ledger::dedup::eliminar_duplicados_isin;
use portfolio_ledger::dedup::eliminar_duplicados_isin_hashset;
use portfolio_ledger::dedup::FilaEmisora;
use portfolio_ledger::holdings::listar_holdings;
use portfolio_ledger::holdings::Movimiento;
use portfolio_ledger::orden::get_trimestres_disponibles;

fn fila(ctid: &str, emisoras: &str, serie: &str, isin: &str) -> FilaEmisora {
    FilaEmisora {
        ctid: ctid.to_string(),
        emisoras: emisoras.to_string(),
        serie: serie.to_string(),
        isin: isin.to_string(),
    }
}

fn texts(items: &[&str]) -> Vec<String> {
    items.iter().map(|s| s.to_string()).collect()
}

#[test]
fn of_rows_with_one_isin_the_first_is_kept() {
    assert_eq!(eliminar_duplicados_isin(&texts(&["(0,1)", "(0,2)", "(0,3)"])), texts(&["(0,2)", "(0,3)"]));
    assert!(eliminar_duplicados_isin(&texts(&["(0,1)"])).is_empty());
    assert!(eliminar_duplicados_isin(&Vec::new()).is_empty());
}

#[test]
fn a_row_equal_to_the_row_before_it_is_deleted() {
    let filas = vec![
        fila("1", "A", "1", "MX1"),
        fila("2", "A", "1", "MX1"),
        fila("3", "A", "1", "MX1"),
        fila("4", "A", "2", "MX1"),
        fila("5", "B", "2", "MX1"),
        fila("6", "B", "2", "MX2"),
        fila("7", "B", "2", "MX2"),
        fila("8", "A", "1", "MX1"),
    ];
    assert_eq!(eliminar_duplicados_emisoras_iterativo(&filas), texts(&["2", "3", "7"]));
    assert!(eliminar_duplicados_emisoras_iterativo(&filas[..1].to_vec()).is_empty());
    assert!(eliminar_duplicados_emisoras_iterativo(&Vec::new()).is_empty());
    let empties = vec![fila("1", "", "", ""), fila("2", "", "", "")];
    assert_eq!(eliminar_duplicados_emisoras_iterativo(&empties), texts(&["2"]));
}

#[test]
fn a_row_whose_key_was_seen_is_deleted() {
    let filas = vec![
        fila("1", "A", "1", "MX1"),
        fila("2", "B", "1", "MX1"),
        fila("3", " A ", "1\t", "\nMX1"),
        fila("4", "a", "1", "MX1"),
        fila("5", "B", "1", "MX1"),
        fila("6", "A", "1", "MX1"),
    ];
    assert_eq!(eliminar_duplicados_emisoras_hashset(&filas), texts(&["3", "5", "6"]));
    let joined = vec![fila("1", "A|B", "C", "D"), fila("2", "A", "B|C", "D")];
    assert_eq!(eliminar_duplicados_emisoras_hashset(&joined), texts(&["2"]));
    assert!(eliminar_duplicados_emisoras_hashset(&Vec::new()).is_empty());
}

#[test]
fn an_isin_is_compared_without_spaces_and_in_upper_case() {
    let filas = vec![
        ("1".to_string(), "MX01".to_string()),
        ("2".to_string(), " mx01 ".to_string()),
        ("3".to_string(), "MX02".to_string()),
        ("4".to_string(), "Mx02".to_string()),
        ("5".to_string(), "MX03".to_string()),
    ];
    assert_eq!(eliminar_duplicados_isin_hashset(&filas), texts(&["2", "4"]));
    let kept = vec![filas[0].clone(), filas[2].clone(), filas[4].clone()];
    assert!(eliminar_duplicados_isin_hashset(&kept).is_empty());
}

#[test]
fn quarters_come_out_in_order_and_once() {
    let given = texts(&["2024Q4", "2023Q1", "2024Q1", "2024Q4", "2023Q1", "2022Q4", "2024Q2"]);
    assert_eq!(
        get_trimestres_disponibles(&given),
        texts(&["2022Q4", "2023Q1", "2024Q1", "2024Q2", "2024Q4"])
    );
    assert!(get_trimestres_disponibles(&Vec::new()).is_empty());
    let given = texts(&["b", "a", "", "ñ", "B", "ab", "a"]);
    let mut expected = given.clone();
    expected.sort();
    expected.dedup();
    assert_eq!(get_trimestres_disponibles(&given), expected);
}

fn movimiento(tipo: &str, cantidad: i32, precio: i64) -> Movimiento {
    Movimiento { tipo: tipo.to_string(), cantidad, precio }
}

#[test]
fn a_holding_is_summed_up() {
    let movimientos = vec![
        movimiento("compra", 1, 122_970_000),
        movimiento("compra", 3, 100_000_000),
        movimiento("venta", 2, 130_000_000),
        movimiento("dividendo", 50, 1),
        movimiento("venta", 1, 100_000_001),
    ];
    let r = listar_holdings(&movimientos).unwrap();
    assert_eq!(r.cantidad_actual, 1);
    assert_eq!(r.precio_promedio, 422_970_000 / 4);
    assert_eq!(r.vendidas, 3);
    assert_eq!(r.precio_promedio_venta, 360_000_001 / 3);
    let nothing = listar_holdings(&Vec::new()).unwrap();
    assert_eq!(nothing.cantidad_actual, 0);
    assert_eq!(nothing.precio_promedio, 0);
    assert_eq!(nothing.vendidas, 0);
    assert_eq!(nothing.precio_promedio_venta, 0);
    let only_sales = listar_holdings(&vec![movimiento("venta", 2, 10)]).unwrap();
    assert_eq!(only_sales.cantidad_actual, -2);
    assert_eq!(only_sales.precio_promedio, 0);
    assert_eq!(only_sales.precio_promedio_venta, 10);
}
